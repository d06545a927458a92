//! Schema Controller: the fixture table's lifecycle (create, reset, drop)
//! and its row operations, modelled as an owned in-process value. The
//! contracts state exactly what the live table holds after each operation;
//! the unverified edge that issues the corresponding statements mirrors
//! these transitions one to one.
use vstd::prelude::*;

verus! {

/// One row of the fixture table: a generated sequential identifier, an
/// idempotency key that is unique across all rows, and a non-negative
/// balance.
pub struct AccountRow {
    pub a_id: i64,
    pub idempotency_key: String,
    pub balance: i64,
}

/// The mathematical value of one account row.
pub ghost struct RowModel {
    pub a_id: int,
    pub key: Seq<char>,
    pub balance: int,
}

impl View for AccountRow {
    type V = RowModel;

    open spec fn view(&self) -> RowModel {
        RowModel {
            a_id: self.a_id as int,
            key: self.idempotency_key@,
            balance: self.balance as int,
        }
    }
}

/// Table invariants: identifiers are `1, 2, ...` in insertion order (the
/// generated primary key of a freshly created table), keys are unique (the
/// unique index), and balances are non-negative (the check constraint).
pub open spec fn rows_wf(rows: Seq<RowModel>) -> bool {
    &&& forall|i: int| 0 <= i < rows.len() ==> #[trigger] rows[i].a_id == i + 1
    &&& forall|i: int| 0 <= i < rows.len() ==> #[trigger] rows[i].balance >= 0
    &&& forall|i: int, j: int|
        0 <= i < j < rows.len() ==> rows[i].key != rows[j].key
}

/// Whether some row carries the key `k`.
pub open spec fn has_key(rows: Seq<RowModel>, k: Seq<char>) -> bool {
    exists|i: int| 0 <= i < rows.len() && rows[i].key == k
}

/// Whether some row carries the identifier `id`.
pub open spec fn has_id(rows: Seq<RowModel>, id: int) -> bool {
    exists|i: int| 0 <= i < rows.len() && rows[i].a_id == id
}

/// How many rows carry the key `k`.
pub open spec fn count_key(rows: Seq<RowModel>, k: Seq<char>) -> nat
    decreases rows.len(),
{
    if rows.len() == 0 {
        0
    } else {
        count_key(rows.drop_last(), k) + (if rows.last().key == k {
            1nat
        } else {
            0nat
        })
    }
}

/// The table and identifier that an upsert with key `k` yields: the existing
/// row's identifier if the key is present, otherwise the table with one new
/// zero-balance row appended under the next sequential identifier.
pub open spec fn upsert_result(rows: Seq<RowModel>, k: Seq<char>) -> (Seq<RowModel>, int) {
    if has_key(rows, k) {
        let w = choose|i: int| 0 <= i < rows.len() && rows[i].key == k;
        (rows, rows[w].a_id)
    } else {
        (rows.push(RowModel { a_id: rows.len() as int + 1, key: k, balance: 0 }), rows.len() as int + 1)
    }
}

/// The table after overwriting the balance of the row identified by `id`;
/// rows with other identifiers are unchanged, and so is the whole table if
/// no row has `id`.
pub open spec fn update_balance_rows(rows: Seq<RowModel>, id: int, balance: int) -> Seq<
    RowModel,
> {
    Seq::new(
        rows.len(),
        |i: int|
            if rows[i].a_id == id {
                RowModel { a_id: rows[i].a_id, key: rows[i].key, balance: balance }
            } else {
                rows[i]
            },
    )
}

/// The error of a row operation whose statement affected zero rows.
#[derive(Clone, Copy, Debug, PartialEq, Eq)]
pub enum TableError {
    NoSuchRecord,
}

/// The fixture table itself.
pub struct AccountsTable {
    pub rows: Vec<AccountRow>,
}

impl View for AccountsTable {
    type V = Seq<RowModel>;

    open spec fn view(&self) -> Seq<RowModel> {
        self.rows@.map(|i: int, r: AccountRow| r@)
    }
}

impl AccountsTable {
    /// A freshly created, empty table.
    pub fn new() -> (r: Self)
        ensures
            r@ == Seq::<RowModel>::empty(),
            rows_wf(r@),
    {
        let r = AccountsTable { rows: Vec::new() };
        proof {
            assert(r@ =~= Seq::<RowModel>::empty());
        }
        r
    }

    /// How many rows the table holds.
    pub fn row_count(&self) -> (n: usize)
        ensures
            n == self@.len(),
    {
        self.rows.len()
    }

    /// Look the key up; if a row has it, return that row's identifier and
    /// change nothing, otherwise insert a new row with balance zero and
    /// return its generated identifier.
    pub fn upsert_placeholder(&mut self, idempotency_key: String) -> (r: i64)
        requires
            rows_wf(old(self)@),
            old(self)@.len() < i64::MAX,
        ensures
            rows_wf(final(self)@),
            (final(self)@, r as int) == upsert_result(old(self)@, idempotency_key@),
    {
        let ghost rows0 = self@;
        let ghost k = idempotency_key@;
        let n = self.rows.len();
        let mut i: usize = 0;
        while i < n
            invariant
                i <= n,
                n == self.rows@.len(),
                *self == *old(self),
                rows0 == old(self)@,
                rows_wf(rows0),
                k == idempotency_key@,
                forall|j: int| 0 <= j < i ==> self@[j].key != k,
            decreases n - i,
        {
            if self.rows[i].idempotency_key == idempotency_key {
                let r = self.rows[i].a_id;
                proof {
                    assert(rows0[i as int].key == k);
                    let w = choose|j: int| 0 <= j < rows0.len() && rows0[j].key == k;
                    if w < i as int {
                        assert(rows0[w].key != rows0[i as int].key);
                    } else if w > i as int {
                        assert(rows0[i as int].key != rows0[w].key);
                    }
                    assert(w == i as int);
                }
                return r;
            }
            i += 1;
        }
        let id: i64 = (n as i64) + 1;
        self.rows.push(AccountRow { a_id: id, idempotency_key, balance: 0 });
        proof {
            assert(!has_key(rows0, k));
            let added = RowModel { a_id: rows0.len() as int + 1, key: k, balance: 0 };
            assert(self@ =~= rows0.push(added));
            assert forall|p: int, q: int|
                0 <= p < q < self@.len() implies self@[p].key != self@[q].key by {
                if q < rows0.len() {
                    assert(rows0[p].key != rows0[q].key);
                } else {
                    assert(self@[q] == added);
                    assert(rows0[p].key != k);
                }
            }
        }
        id
    }

    /// Overwrite the balance of the row identified by `a_id`. A statement
    /// that affects zero rows is surfaced as `NoSuchRecord` rather than
    /// passing silently.
    pub fn set_balance(&mut self, a_id: i64, balance: i64) -> (r: Result<(), TableError>)
        requires
            rows_wf(old(self)@),
            balance >= 0,
        ensures
            rows_wf(final(self)@),
            r is Ok <==> has_id(old(self)@, a_id as int),
            r is Err ==> r == Err::<(), TableError>(TableError::NoSuchRecord),
            final(self)@ == update_balance_rows(old(self)@, a_id as int, balance as int),
    {
        let ghost rows0 = self@;
        let n = self.rows.len();
        let mut i: usize = 0;
        while i < n
            invariant
                i <= n,
                n == self.rows@.len(),
                *self == *old(self),
                rows0 == old(self)@,
                rows_wf(rows0),
                balance >= 0,
                forall|j: int| 0 <= j < i ==> self@[j].a_id != a_id as int,
            decreases n - i,
        {
            if self.rows[i].a_id == a_id {
                proof {
                    assert(rows0.len() == self.rows@.len());
                    assert(rows0[i as int] == self.rows@[i as int]@);
                    assert(rows0[i as int].a_id == a_id as int);
                    assert(has_id(rows0, a_id as int));
                }
                let key_copy = self.rows[i].idempotency_key.clone();
                self.rows.set(
                    i,
                    AccountRow { a_id: a_id, idempotency_key: key_copy, balance: balance },
                );
                proof {
                    assert(self@.len() == self.rows@.len());
                    assert forall|j: int| 0 <= j < self@.len() implies self@[j]
                        == update_balance_rows(rows0, a_id as int, balance as int)[j] by {
                        if j != i as int {
                            assert(rows0[j].a_id == j + 1);
                            assert(rows0[i as int].a_id == i as int + 1);
                        }
                    }
                    assert(self@ =~= update_balance_rows(rows0, a_id as int, balance as int));
                    assert forall|p: int, q: int|
                        0 <= p < q < self@.len() implies self@[p].key != self@[q].key by {
                        assert(rows0[p].key != rows0[q].key);
                    }
                    assert forall|j: int| 0 <= j < self@.len() implies #[trigger] self@[j].a_id
                        == j + 1 && self@[j].balance >= 0 by {
                        assert(self@[j] == update_balance_rows(
                            rows0,
                            a_id as int,
                            balance as int,
                        )[j]);
                        assert(rows0[j].a_id == j + 1);
                        assert(rows0[j].balance >= 0);
                    }
                }
                return Ok(());
            }
            i += 1;
        }
        proof {
            assert(!has_id(rows0, a_id as int));
            assert(self@ =~= update_balance_rows(rows0, a_id as int, balance as int));
        }
        Err(TableError::NoSuchRecord)
    }

    /// The balance of the row identified by `a_id`, if such a row exists.
    pub fn get_balance(&self, a_id: i64) -> (r: Option<i64>)
        requires
            rows_wf(self@),
        ensures
            r is Some <==> has_id(self@, a_id as int),
            r matches Some(b) ==> forall|i: int|
                0 <= i < self@.len() && self@[i].a_id == a_id as int ==> #[trigger] self@[i].balance
                    == b as int,
    {
        let n = self.rows.len();
        let mut i: usize = 0;
        while i < n
            invariant
                i <= n,
                n == self.rows@.len(),
                rows_wf(self@),
                forall|j: int| 0 <= j < i ==> self@[j].a_id != a_id as int,
            decreases n - i,
        {
            if self.rows[i].a_id == a_id {
                let b = self.rows[i].balance;
                proof {
                    assert(self@.len() == self.rows@.len());
                    assert(self@[i as int] == self.rows@[i as int]@);
                    assert(self@[i as int].a_id == a_id as int);
                    assert forall|j: int|
                        0 <= j < self@.len() && self@[j].a_id == a_id as int implies #[trigger] self@[j].balance
                        == b as int by {
                        assert(self@[j].a_id == j + 1);
                        assert(self@[i as int].a_id == i as int + 1);
                    }
                }
                return Some(b);
            }
            i += 1;
        }
        None
    }
}

/// The Schema Controller: it owns the fixture table's lifecycle. `None`
/// models a dropped or never-created table.
pub struct SchemaController {
    pub table: Option<AccountsTable>,
}

impl View for SchemaController {
    type V = Option<Seq<RowModel>>;

    open spec fn view(&self) -> Option<Seq<RowModel>> {
        match self.table {
            Some(t) => Some(t@),
            None => None,
        }
    }
}

impl SchemaController {
    /// The table, where it exists, satisfies the row invariants.
    pub open spec fn wf(&self) -> bool {
        self@ matches Some(rows) ==> rows_wf(rows)
    }

    /// A controller that has not created the table yet.
    pub fn new() -> (r: Self)
        ensures
            r@ is None,
            r.wf(),
    {
        SchemaController { table: None }
    }

    /// Whether the table currently exists.
    pub fn table_exists(&self) -> (r: bool)
        ensures
            r == (self@ is Some),
    {
        self.table.is_some()
    }

    /// Drop the table if present and recreate it empty: afterwards the table
    /// exists and holds zero rows.
    pub fn reset_table(&mut self)
        ensures
            final(self)@ == Some(Seq::<RowModel>::empty()),
            final(self)@ is Some,
            final(self)@->Some_0.len() == 0,
            final(self).wf(),
    {
        self.table = Some(AccountsTable::new());
    }

    /// Drop the table: afterwards it does not exist.
    pub fn drop_table(&mut self)
        ensures
            final(self)@ is None,
            final(self).wf(),
    {
        self.table = None;
    }
}

/// A key that occurs in no row has count zero.
proof fn lemma_count_key_absent(rows: Seq<RowModel>, k: Seq<char>)
    requires
        forall|j: int| 0 <= j < rows.len() ==> rows[j].key != k,
    ensures
        count_key(rows, k) == 0,
    decreases rows.len(),
{
    if rows.len() > 0 {
        lemma_count_key_absent(rows.drop_last(), k);
    }
}

/// A key that occurs in exactly one row has count one.
proof fn lemma_count_key_unique(rows: Seq<RowModel>, k: Seq<char>, w: int)
    requires
        0 <= w < rows.len(),
        rows[w].key == k,
        forall|j: int| 0 <= j < rows.len() && j != w ==> rows[j].key != k,
    ensures
        count_key(rows, k) == 1,
    decreases rows.len(),
{
    if w == rows.len() - 1 {
        lemma_count_key_absent(rows.drop_last(), k);
    } else {
        lemma_count_key_unique(rows.drop_last(), k, w);
    }
}

/// Idempotency of the upsert: for any key, upserting twice returns the same
/// identifier both times, the second call changes nothing, and the table
/// ends with exactly one row carrying that key — one more row than before if
/// the key was new, the same rows otherwise.
pub proof fn lemma_upsert_idempotent(rows: Seq<RowModel>, k: Seq<char>)
    requires
        rows_wf(rows),
    ensures
        ({
            let (rows1, id1) = upsert_result(rows, k);
            let (rows2, id2) = upsert_result(rows1, k);
            &&& id2 == id1
            &&& rows2 == rows1
            &&& rows_wf(rows1)
            &&& count_key(rows1, k) == 1
            &&& rows1.len() == rows.len() + (if has_key(rows, k) {
                0int
            } else {
                1int
            })
        }),
{
    let (rows1, id1) = upsert_result(rows, k);
    if has_key(rows, k) {
        let w = choose|i: int| 0 <= i < rows.len() && rows[i].key == k;
        assert forall|j: int| 0 <= j < rows.len() && j != w implies rows[j].key != k by {
            if j < w {
                assert(rows[j].key != rows[w].key);
            } else {
                assert(rows[w].key != rows[j].key);
            }
        }
        lemma_count_key_unique(rows, k, w);
    } else {
        let added = RowModel { a_id: rows.len() as int + 1, key: k, balance: 0 };
        assert(rows1 == rows.push(added));
        assert(rows1[rows.len() as int] == added);
        assert forall|p: int, q: int|
            0 <= p < q < rows1.len() implies rows1[p].key != rows1[q].key by {
            if q < rows.len() {
                assert(rows[p].key != rows[q].key);
            } else {
                assert(rows1[q] == added);
                assert(!(0 <= p < rows.len() && rows[p].key == k));
            }
        }
        assert(has_key(rows1, k));
        let w = choose|i: int| 0 <= i < rows1.len() && rows1[i].key == k;
        assert forall|j: int| 0 <= j < rows1.len() && j != rows.len() implies rows1[j].key
            != k by {
            assert(!(0 <= j < rows.len() && rows[j].key == k));
        }
        assert(w == rows.len());
        lemma_count_key_unique(rows1, k, rows.len() as int);
        assert(rows1[w].a_id == rows.len() + 1);
    }
}

} // verus!
