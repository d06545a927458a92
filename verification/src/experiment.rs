//! Experiment drivers: each experiment is a state machine that decides, from
//! its current phase and the result of the previous database action, which
//! action to issue next and whether the observed page state matches the
//! expected one. An unverified edge performs the actions against the live
//! database and feeds the results back; every decision, including the
//! classification of observed pages, is made here.
use vstd::prelude::*;
use crate::inspect::{
    HeapPageItem, StatusCounts, count_tuples_by_lpflag, count_in, flags_of, seq_get, count_opt,
    lemma_count_le_len,
};

verus! {

/// Line-pointer status flags as the diagnostic table-function reports them.
pub const LP_UNUSED: i32 = 0;

pub const LP_NORMAL: i32 = 1;

pub const LP_REDIRECT: i32 = 2;

pub const LP_DEAD: i32 = 3;

/// Which relation the concurrent session's opening read targets: the
/// fixture table itself, or an unrelated one-row table.
#[derive(Clone, Copy, Debug, PartialEq, Eq)]
pub enum SnapshotRelation {
    Accounts,
    UnrelatedRockets,
}

/// One database action a driver asks the unverified edge to perform.
#[derive(Clone, Copy, Debug, PartialEq, Eq)]
pub enum DbAction {
    /// Drop and recreate the fixture table.
    ResetAccounts,
    /// Upsert the probe row and report its identifier.
    UpsertProbeAccount,
    /// Overwrite the probe row's balance.
    SetBalance { a_id: i64, balance: i64 },
    /// Read the per-tuple diagnostics of the given page of the fixture table.
    ReadHeapPage { blkno: i32 },
    /// On a second connection, begin a transaction and read the relation
    /// once, pinning that transaction's snapshot.
    BeginSnapshotTx { relation: SnapshotRelation },
    /// Commit the second connection's transaction.
    CommitSnapshotTx,
    /// Read the fixture table once on the main connection.
    TouchAccounts,
    /// Create the unrelated table and give it one row.
    PrepareUnrelatedTable,
    /// Turn sequential scans off so reads go through the index.
    DisableSeqScan,
    /// Report the index-tuple-read counter of the fixture table's
    /// primary-key index.
    ReadIndexTupReads,
    /// Report the page count of the fixture table after a statistics
    /// refresh.
    ReadPageCount,
    /// Read the probe row by primary key.
    SelectProbeById { a_id: i64 },
    /// The experiment is over; `ok` says whether every observation matched.
    Finished { ok: bool },
}

/// What came back from the previously issued action.
pub enum DbEvent {
    /// Nothing was issued yet: start the experiment.
    Start,
    /// The action completed without a result value.
    Done,
    /// The upsert returned the probe row's identifier.
    UpsertedId(i64),
    /// The page read returned these diagnostic records.
    PageItems(Vec<HeapPageItem>),
    /// The counter read returned this value.
    Counter(i64),
    /// The page-count read returned this value.
    Pages(i32),
}

/// The page shows exactly `n` line pointers, all with the normal flag.
pub open spec fn all_normal_page(items: Seq<HeapPageItem>, n: int) -> bool {
    &&& items.len() == n
    &&& count_in(flags_of(items), LP_NORMAL) == n
}

/// The page shows exactly `n` line pointers with the given counts of
/// unused, normal and redirecting ones.
pub open spec fn pruned_page(
    items: Seq<HeapPageItem>,
    n: int,
    unused: int,
    normal: int,
    redirect: int,
) -> bool {
    &&& items.len() == n
    &&& count_in(flags_of(items), LP_UNUSED) == unused
    &&& count_in(flags_of(items), LP_NORMAL) == normal
    &&& count_in(flags_of(items), LP_REDIRECT) == redirect
}

/// Whether the classified page counts `want` occurrences of `flag`, where
/// an absent entry counts as zero.
fn counts_show(counts: &StatusCounts, flag: i32, want: usize) -> (r: bool)
    ensures
        r == (match seq_get(counts.entries@, flag) {
            Some(c) => c == want,
            None => want == 0,
        }),
{
    match counts.get(flag) {
        Some(c) => c == want,
        None => want == 0,
    }
}

/// Classify the records and decide whether they show exactly `n` line
/// pointers, all normal.
pub fn page_all_normal(items: Vec<HeapPageItem>, n: usize) -> (r: bool)
    ensures
        r == all_normal_page(items@, n as int),
{
    let ghost gitems = items@;
    let n_items = items.len();
    let counts = count_tuples_by_lpflag(items);
    let r = n_items == n && counts_show(&counts, LP_NORMAL, n);
    proof {
        let flags = flags_of(gitems);
        assert(flags.len() == gitems.len());
        lemma_count_le_len(flags, LP_NORMAL);
        assert(seq_get(counts.entries@, LP_NORMAL) == count_opt(flags, LP_NORMAL));
    }
    r
}

/// Classify the records and decide whether they show exactly `n` line
/// pointers with the given counts of unused, normal and redirecting ones.
pub fn page_pruned(
    items: Vec<HeapPageItem>,
    n: usize,
    unused: usize,
    normal: usize,
    redirect: usize,
) -> (r: bool)
    ensures
        r == pruned_page(items@, n as int, unused as int, normal as int, redirect as int),
{
    let ghost gitems = items@;
    let n_items = items.len();
    let counts = count_tuples_by_lpflag(items);
    let r = n_items == n && counts_show(&counts, LP_UNUSED, unused) && counts_show(
        &counts,
        LP_NORMAL,
        normal,
    ) && counts_show(&counts, LP_REDIRECT, redirect);
    proof {
        let flags = flags_of(gitems);
        assert(flags.len() == gitems.len());
        lemma_count_le_len(flags, LP_UNUSED);
        lemma_count_le_len(flags, LP_NORMAL);
        lemma_count_le_len(flags, LP_REDIRECT);
        assert(seq_get(counts.entries@, LP_UNUSED) == count_opt(flags, LP_UNUSED));
        assert(seq_get(counts.entries@, LP_NORMAL) == count_opt(flags, LP_NORMAL));
        assert(seq_get(counts.entries@, LP_REDIRECT) == count_opt(flags, LP_REDIRECT));
    }
    r
}

/// The phases of the heap-prune experiment.
#[derive(Clone, Copy, Debug, PartialEq, Eq)]
pub enum PrunePhase {
    /// Waiting for the start event.
    Ready,
    /// The table reset was issued.
    Resetting,
    /// The probe upsert was issued.
    Upserting,
    /// Balance updates are being issued to grow the in-page tuple chain.
    Filling,
    /// The page read after the fill was issued.
    FirstInspect,
    /// The one balance update beyond the fill was issued.
    Overflowing,
    /// The page read after the overflow update was issued.
    SecondInspect,
    /// The experiment ended; `ok` says whether every observation matched.
    Complete { ok: bool },
}

/// Drive the fixture table to the page-capacity boundary and observe the
/// opportunistic prune: after one probe row and `updates_per_prune - 2`
/// balance updates the page must show a chain of all-normal line pointers;
/// one further update must leave the same number of line pointers, mostly
/// unused, with one redirect.
pub struct HeapPruneExperiment {
    /// How many tuple versions fit before the page is pruned; an
    /// environment-derived constant of the storage engine configuration.
    pub updates_per_prune: i64,
    /// The probe row's identifier, once the upsert reported it.
    pub a_id: i64,
    /// The balance the next fill update writes.
    pub next_balance: i64,
    pub phase: PrunePhase,
}

/// The transition function of the heap-prune experiment: from the current
/// state and the result of the previous action to the successor state and
/// the next action.
pub open spec fn prune_step(s: HeapPruneExperiment, ev: DbEvent) -> (
    HeapPruneExperiment,
    DbAction,
) {
    let t = s.updates_per_prune as int;
    match (s.phase, ev) {
        (PrunePhase::Ready, DbEvent::Start) => (
            HeapPruneExperiment { phase: PrunePhase::Resetting, ..s },
            DbAction::ResetAccounts,
        ),
        (PrunePhase::Resetting, DbEvent::Done) => (
            HeapPruneExperiment { phase: PrunePhase::Upserting, ..s },
            DbAction::UpsertProbeAccount,
        ),
        (PrunePhase::Upserting, DbEvent::UpsertedId(id)) => (
            HeapPruneExperiment { phase: PrunePhase::Filling, a_id: id, next_balance: 2, ..s },
            DbAction::SetBalance { a_id: id, balance: 1 },
        ),
        (PrunePhase::Filling, DbEvent::Done) => if s.next_balance <= s.updates_per_prune - 2 {
            (
                HeapPruneExperiment { next_balance: (s.next_balance + 1) as i64, ..s },
                DbAction::SetBalance { a_id: s.a_id, balance: s.next_balance },
            )
        } else {
            (
                HeapPruneExperiment { phase: PrunePhase::FirstInspect, ..s },
                DbAction::ReadHeapPage { blkno: 0 },
            )
        },
        (PrunePhase::FirstInspect, DbEvent::PageItems(items)) => if all_normal_page(
            items@,
            t - 1,
        ) {
            (
                HeapPruneExperiment { phase: PrunePhase::Overflowing, ..s },
                DbAction::SetBalance { a_id: s.a_id, balance: s.updates_per_prune },
            )
        } else {
            (
                HeapPruneExperiment { phase: PrunePhase::Complete { ok: false }, ..s },
                DbAction::Finished { ok: false },
            )
        },
        (PrunePhase::Overflowing, DbEvent::Done) => (
            HeapPruneExperiment { phase: PrunePhase::SecondInspect, ..s },
            DbAction::ReadHeapPage { blkno: 0 },
        ),
        (PrunePhase::SecondInspect, DbEvent::PageItems(items)) => {
            let ok = pruned_page(items@, t - 1, t - 4, 2, 1);
            (
                HeapPruneExperiment { phase: PrunePhase::Complete { ok }, ..s },
                DbAction::Finished { ok },
            )
        },
        _ => (
            HeapPruneExperiment { phase: PrunePhase::Complete { ok: false }, ..s },
            DbAction::Finished { ok: false },
        ),
    }
}

impl HeapPruneExperiment {
    /// The prune bound is large enough for the expected counts to be
    /// meaningful and small enough for every derived quantity to fit.
    pub open spec fn wf(&self) -> bool {
        &&& 5 <= self.updates_per_prune <= 1000000
        &&& 0 <= self.next_balance <= self.updates_per_prune
    }

    /// A driver for the given environment-derived prune bound.
    pub fn new(updates_per_prune: i64) -> (r: Self)
        requires
            5 <= updates_per_prune <= 1000000,
        ensures
            r == (HeapPruneExperiment {
                updates_per_prune,
                a_id: 0,
                next_balance: 0,
                phase: PrunePhase::Ready,
            }),
            r.wf(),
    {
        HeapPruneExperiment { updates_per_prune, a_id: 0, next_balance: 0, phase: PrunePhase::Ready }
    }

    /// Consume the previous action's result and decide the next action.
    pub fn next(&mut self, ev: DbEvent) -> (act: DbAction)
        requires
            old(self).wf(),
        ensures
            final(self).wf(),
            (*final(self), act) == prune_step(*old(self), ev),
    {
        match (self.phase, ev) {
            (PrunePhase::Ready, DbEvent::Start) => {
                self.phase = PrunePhase::Resetting;
                DbAction::ResetAccounts
            },
            (PrunePhase::Resetting, DbEvent::Done) => {
                self.phase = PrunePhase::Upserting;
                DbAction::UpsertProbeAccount
            },
            (PrunePhase::Upserting, DbEvent::UpsertedId(id)) => {
                self.phase = PrunePhase::Filling;
                self.a_id = id;
                self.next_balance = 2;
                DbAction::SetBalance { a_id: id, balance: 1 }
            },
            (PrunePhase::Filling, DbEvent::Done) => {
                if self.next_balance <= self.updates_per_prune - 2 {
                    let balance = self.next_balance;
                    self.next_balance = balance + 1;
                    DbAction::SetBalance { a_id: self.a_id, balance }
                } else {
                    self.phase = PrunePhase::FirstInspect;
                    DbAction::ReadHeapPage { blkno: 0 }
                }
            },
            (PrunePhase::FirstInspect, DbEvent::PageItems(items)) => {
                let expected = (self.updates_per_prune - 1) as usize;
                if page_all_normal(items, expected) {
                    self.phase = PrunePhase::Overflowing;
                    DbAction::SetBalance { a_id: self.a_id, balance: self.updates_per_prune }
                } else {
                    self.phase = PrunePhase::Complete { ok: false };
                    DbAction::Finished { ok: false }
                }
            },
            (PrunePhase::Overflowing, DbEvent::Done) => {
                self.phase = PrunePhase::SecondInspect;
                DbAction::ReadHeapPage { blkno: 0 }
            },
            (PrunePhase::SecondInspect, DbEvent::PageItems(items)) => {
                let t = self.updates_per_prune;
                let ok = page_pruned(items, (t - 1) as usize, (t - 4) as usize, 2, 1);
                self.phase = PrunePhase::Complete { ok };
                DbAction::Finished { ok }
            },
            _ => {
                self.phase = PrunePhase::Complete { ok: false };
                DbAction::Finished { ok: false }
            },
        }
    }
}

/// The phases of the concurrent-transaction experiment.
#[derive(Clone, Copy, Debug, PartialEq, Eq)]
pub enum ConcurrentPhase {
    /// Waiting for the start event.
    Ready,
    /// The unrelated table's setup was issued.
    Preparing,
    /// The table reset was issued.
    Resetting,
    /// The probe upsert was issued.
    Upserting,
    /// The second session's snapshot-pinning transaction was opened.
    Pinning,
    /// Balance updates are being issued to grow the in-page tuple chain.
    Filling,
    /// The page read after the fill was issued.
    FirstInspect,
    /// The one balance update beyond the fill was issued.
    Overflowing,
    /// The page read that must still show no prune was issued.
    SecondInspect,
    /// The second session's transaction commit was issued.
    Committing,
    /// The read that lets the engine prune was issued.
    Touching,
    /// The page read after the prune was issued.
    ThirdInspect,
    /// The experiment ended; `ok` says whether every observation matched.
    Complete { ok: bool },
}

/// Repeat the fill sequence while a concurrent session holds an open
/// transaction that has already read a relation: the update beyond the
/// page-capacity boundary must yield one additional live tuple that is not
/// pruned while that transaction stays open, and the page must be pruned
/// only after the transaction commits and a subsequent read occurs.
pub struct ConcurrentTxExperiment {
    /// How many tuple versions fit before the page is pruned; an
    /// environment-derived constant of the storage engine configuration.
    pub updates_per_prune: i64,
    /// The balance written by the update beyond the capacity boundary.
    pub extra_balance: i64,
    /// The relation the concurrent session's opening read targets.
    pub relation: SnapshotRelation,
    /// The probe row's identifier, once the upsert reported it.
    pub a_id: i64,
    /// The balance the next fill update writes.
    pub next_balance: i64,
    pub phase: ConcurrentPhase,
}

/// The transition function of the concurrent-transaction experiment.
pub open spec fn concurrent_step(s: ConcurrentTxExperiment, ev: DbEvent) -> (
    ConcurrentTxExperiment,
    DbAction,
) {
    let t = s.updates_per_prune as int;
    match (s.phase, ev) {
        (ConcurrentPhase::Ready, DbEvent::Start) => match s.relation {
            SnapshotRelation::Accounts => (
                ConcurrentTxExperiment { phase: ConcurrentPhase::Resetting, ..s },
                DbAction::ResetAccounts,
            ),
            SnapshotRelation::UnrelatedRockets => (
                ConcurrentTxExperiment { phase: ConcurrentPhase::Preparing, ..s },
                DbAction::PrepareUnrelatedTable,
            ),
        },
        (ConcurrentPhase::Preparing, DbEvent::Done) => (
            ConcurrentTxExperiment { phase: ConcurrentPhase::Resetting, ..s },
            DbAction::ResetAccounts,
        ),
        (ConcurrentPhase::Resetting, DbEvent::Done) => (
            ConcurrentTxExperiment { phase: ConcurrentPhase::Upserting, ..s },
            DbAction::UpsertProbeAccount,
        ),
        (ConcurrentPhase::Upserting, DbEvent::UpsertedId(id)) => (
            ConcurrentTxExperiment { phase: ConcurrentPhase::Pinning, a_id: id, ..s },
            DbAction::BeginSnapshotTx { relation: s.relation },
        ),
        (ConcurrentPhase::Pinning, DbEvent::Done) => (
            ConcurrentTxExperiment { phase: ConcurrentPhase::Filling, next_balance: 2, ..s },
            DbAction::SetBalance { a_id: s.a_id, balance: 1 },
        ),
        (ConcurrentPhase::Filling, DbEvent::Done) => if s.next_balance <= s.updates_per_prune
            - 2 {
            (
                ConcurrentTxExperiment { next_balance: (s.next_balance + 1) as i64, ..s },
                DbAction::SetBalance { a_id: s.a_id, balance: s.next_balance },
            )
        } else {
            (
                ConcurrentTxExperiment { phase: ConcurrentPhase::FirstInspect, ..s },
                DbAction::ReadHeapPage { blkno: 0 },
            )
        },
        (ConcurrentPhase::FirstInspect, DbEvent::PageItems(items)) => if all_normal_page(
            items@,
            t - 1,
        ) {
            (
                ConcurrentTxExperiment { phase: ConcurrentPhase::Overflowing, ..s },
                DbAction::SetBalance { a_id: s.a_id, balance: s.extra_balance },
            )
        } else {
            (
                ConcurrentTxExperiment { phase: ConcurrentPhase::Complete { ok: false }, ..s },
                DbAction::Finished { ok: false },
            )
        },
        (ConcurrentPhase::Overflowing, DbEvent::Done) => (
            ConcurrentTxExperiment { phase: ConcurrentPhase::SecondInspect, ..s },
            DbAction::ReadHeapPage { blkno: 0 },
        ),
        (ConcurrentPhase::SecondInspect, DbEvent::PageItems(items)) => if all_normal_page(
            items@,
            t,
        ) {
            (
                ConcurrentTxExperiment { phase: ConcurrentPhase::Committing, ..s },
                DbAction::CommitSnapshotTx,
            )
        } else {
            (
                ConcurrentTxExperiment { phase: ConcurrentPhase::Complete { ok: false }, ..s },
                DbAction::Finished { ok: false },
            )
        },
        (ConcurrentPhase::Committing, DbEvent::Done) => (
            ConcurrentTxExperiment { phase: ConcurrentPhase::Touching, ..s },
            DbAction::TouchAccounts,
        ),
        (ConcurrentPhase::Touching, DbEvent::Done) => (
            ConcurrentTxExperiment { phase: ConcurrentPhase::ThirdInspect, ..s },
            DbAction::ReadHeapPage { blkno: 0 },
        ),
        (ConcurrentPhase::ThirdInspect, DbEvent::PageItems(items)) => {
            let ok = pruned_page(items@, t, t - 2, 1, 1);
            (
                ConcurrentTxExperiment { phase: ConcurrentPhase::Complete { ok }, ..s },
                DbAction::Finished { ok },
            )
        },
        _ => (
            ConcurrentTxExperiment { phase: ConcurrentPhase::Complete { ok: false }, ..s },
            DbAction::Finished { ok: false },
        ),
    }
}

impl ConcurrentTxExperiment {
    /// See `HeapPruneExperiment::wf`; the extra balance must satisfy the
    /// table's check constraint.
    pub open spec fn wf(&self) -> bool {
        &&& 5 <= self.updates_per_prune <= 1000000
        &&& 0 <= self.next_balance <= self.updates_per_prune
        &&& self.extra_balance >= 0
    }

    /// A driver for the given prune bound, overflow balance and snapshot
    /// relation.
    pub fn new(updates_per_prune: i64, extra_balance: i64, relation: SnapshotRelation) -> (r:
        Self)
        requires
            5 <= updates_per_prune <= 1000000,
            extra_balance >= 0,
        ensures
            r == (ConcurrentTxExperiment {
                updates_per_prune,
                extra_balance,
                relation,
                a_id: 0,
                next_balance: 0,
                phase: ConcurrentPhase::Ready,
            }),
            r.wf(),
    {
        ConcurrentTxExperiment {
            updates_per_prune,
            extra_balance,
            relation,
            a_id: 0,
            next_balance: 0,
            phase: ConcurrentPhase::Ready,
        }
    }

    /// Consume the previous action's result and decide the next action.
    pub fn next(&mut self, ev: DbEvent) -> (act: DbAction)
        requires
            old(self).wf(),
        ensures
            final(self).wf(),
            (*final(self), act) == concurrent_step(*old(self), ev),
    {
        match (self.phase, ev) {
            (ConcurrentPhase::Ready, DbEvent::Start) => match self.relation {
                SnapshotRelation::Accounts => {
                    self.phase = ConcurrentPhase::Resetting;
                    DbAction::ResetAccounts
                },
                SnapshotRelation::UnrelatedRockets => {
                    self.phase = ConcurrentPhase::Preparing;
                    DbAction::PrepareUnrelatedTable
                },
            },
            (ConcurrentPhase::Preparing, DbEvent::Done) => {
                self.phase = ConcurrentPhase::Resetting;
                DbAction::ResetAccounts
            },
            (ConcurrentPhase::Resetting, DbEvent::Done) => {
                self.phase = ConcurrentPhase::Upserting;
                DbAction::UpsertProbeAccount
            },
            (ConcurrentPhase::Upserting, DbEvent::UpsertedId(id)) => {
                self.phase = ConcurrentPhase::Pinning;
                self.a_id = id;
                DbAction::BeginSnapshotTx { relation: self.relation }
            },
            (ConcurrentPhase::Pinning, DbEvent::Done) => {
                self.phase = ConcurrentPhase::Filling;
                self.next_balance = 2;
                DbAction::SetBalance { a_id: self.a_id, balance: 1 }
            },
            (ConcurrentPhase::Filling, DbEvent::Done) => {
                if self.next_balance <= self.updates_per_prune - 2 {
                    let balance = self.next_balance;
                    self.next_balance = balance + 1;
                    DbAction::SetBalance { a_id: self.a_id, balance }
                } else {
                    self.phase = ConcurrentPhase::FirstInspect;
                    DbAction::ReadHeapPage { blkno: 0 }
                }
            },
            (ConcurrentPhase::FirstInspect, DbEvent::PageItems(items)) => {
                let expected = (self.updates_per_prune - 1) as usize;
                if page_all_normal(items, expected) {
                    self.phase = ConcurrentPhase::Overflowing;
                    DbAction::SetBalance { a_id: self.a_id, balance: self.extra_balance }
                } else {
                    self.phase = ConcurrentPhase::Complete { ok: false };
                    DbAction::Finished { ok: false }
                }
            },
            (ConcurrentPhase::Overflowing, DbEvent::Done) => {
                self.phase = ConcurrentPhase::SecondInspect;
                DbAction::ReadHeapPage { blkno: 0 }
            },
            (ConcurrentPhase::SecondInspect, DbEvent::PageItems(items)) => {
                let expected = self.updates_per_prune as usize;
                if page_all_normal(items, expected) {
                    self.phase = ConcurrentPhase::Committing;
                    DbAction::CommitSnapshotTx
                } else {
                    self.phase = ConcurrentPhase::Complete { ok: false };
                    DbAction::Finished { ok: false }
                }
            },
            (ConcurrentPhase::Committing, DbEvent::Done) => {
                self.phase = ConcurrentPhase::Touching;
                DbAction::TouchAccounts
            },
            (ConcurrentPhase::Touching, DbEvent::Done) => {
                self.phase = ConcurrentPhase::ThirdInspect;
                DbAction::ReadHeapPage { blkno: 0 }
            },
            (ConcurrentPhase::ThirdInspect, DbEvent::PageItems(items)) => {
                let t = self.updates_per_prune;
                let ok = page_pruned(items, t as usize, (t - 2) as usize, 1, 1);
                self.phase = ConcurrentPhase::Complete { ok };
                DbAction::Finished { ok }
            },
            _ => {
                self.phase = ConcurrentPhase::Complete { ok: false };
                DbAction::Finished { ok: false }
            },
        }
    }
}

/// The phases of the index-read experiment.
#[derive(Clone, Copy, Debug, PartialEq, Eq)]
pub enum IndexReadPhase {
    /// Waiting for the start event.
    Ready,
    /// The table reset was issued.
    Resetting,
    /// The sequential-scan switch was issued.
    DisablingSeqScan,
    /// The probe upsert was issued.
    Upserting,
    /// The second session's snapshot-pinning transaction was opened.
    Pinning,
    /// Balance updates are being issued to fill the first page.
    Filling,
    /// The first counter read was issued; the fill must account for one
    /// index-tuple read per update.
    CountingInitial,
    /// The first point select was issued.
    SelectingFirst,
    /// The counter read after that select was issued.
    CountingAfterSelect,
    /// The page-count read before the overflow update was issued.
    CountingPagesBefore,
    /// The update that forces a second page was issued.
    Overflowing,
    /// The page-count read after the overflow update was issued.
    CountingPagesAfter,
    /// The counter read after the overflow update was issued.
    CountingAfterOverflow,
    /// The second point select was issued.
    SelectingSecond,
    /// The final counter read was issued; the unpruned chain must cost two
    /// index-tuple reads for one select.
    CountingFinal,
    /// The second session's transaction commit was issued.
    Committing,
    /// The experiment ended; `ok` says whether every observation matched.
    Complete { ok: bool },
}

/// Observe how an unswept tuple chain shows up in the index-tuple-read
/// counter: with a concurrent snapshot holding the page full of versions,
/// the fill costs one read per update, a point select costs one read, and
/// after a second page exists the same select costs two.
pub struct IndexReadExperiment {
    /// How many tuple versions fit into one page; an environment-derived
    /// constant of the storage engine configuration.
    pub tuples_per_page: i64,
    /// The probe row's identifier, once the upsert reported it.
    pub a_id: i64,
    /// The balance the next fill update writes.
    pub next_balance: i64,
    pub phase: IndexReadPhase,
}

/// The transition function of the index-read experiment.
pub open spec fn index_read_step(s: IndexReadExperiment, ev: DbEvent) -> (
    IndexReadExperiment,
    DbAction,
) {
    let t = s.tuples_per_page as int;
    match (s.phase, ev) {
        (IndexReadPhase::Ready, DbEvent::Start) => (
            IndexReadExperiment { phase: IndexReadPhase::Resetting, ..s },
            DbAction::ResetAccounts,
        ),
        (IndexReadPhase::Resetting, DbEvent::Done) => (
            IndexReadExperiment { phase: IndexReadPhase::DisablingSeqScan, ..s },
            DbAction::DisableSeqScan,
        ),
        (IndexReadPhase::DisablingSeqScan, DbEvent::Done) => (
            IndexReadExperiment { phase: IndexReadPhase::Upserting, ..s },
            DbAction::UpsertProbeAccount,
        ),
        (IndexReadPhase::Upserting, DbEvent::UpsertedId(id)) => (
            IndexReadExperiment { phase: IndexReadPhase::Pinning, a_id: id, ..s },
            DbAction::BeginSnapshotTx { relation: SnapshotRelation::Accounts },
        ),
        (IndexReadPhase::Pinning, DbEvent::Done) => (
            IndexReadExperiment { phase: IndexReadPhase::Filling, next_balance: 2, ..s },
            DbAction::SetBalance { a_id: s.a_id, balance: 1 },
        ),
        (IndexReadPhase::Filling, DbEvent::Done) => if s.next_balance <= s.tuples_per_page - 1 {
            (
                IndexReadExperiment { next_balance: (s.next_balance + 1) as i64, ..s },
                DbAction::SetBalance { a_id: s.a_id, balance: s.next_balance },
            )
        } else {
            (
                IndexReadExperiment { phase: IndexReadPhase::CountingInitial, ..s },
                DbAction::ReadIndexTupReads,
            )
        },
        (IndexReadPhase::CountingInitial, DbEvent::Counter(c)) => if c == t - 1 {
            (
                IndexReadExperiment { phase: IndexReadPhase::SelectingFirst, ..s },
                DbAction::SelectProbeById { a_id: s.a_id },
            )
        } else {
            (
                IndexReadExperiment { phase: IndexReadPhase::Complete { ok: false }, ..s },
                DbAction::Finished { ok: false },
            )
        },
        (IndexReadPhase::SelectingFirst, DbEvent::Done) => (
            IndexReadExperiment { phase: IndexReadPhase::CountingAfterSelect, ..s },
            DbAction::ReadIndexTupReads,
        ),
        (IndexReadPhase::CountingAfterSelect, DbEvent::Counter(c)) => if c == t {
            (
                IndexReadExperiment { phase: IndexReadPhase::CountingPagesBefore, ..s },
                DbAction::ReadPageCount,
            )
        } else {
            (
                IndexReadExperiment { phase: IndexReadPhase::Complete { ok: false }, ..s },
                DbAction::Finished { ok: false },
            )
        },
        (IndexReadPhase::CountingPagesBefore, DbEvent::Pages(p)) => if p == 1 {
            (
                IndexReadExperiment { phase: IndexReadPhase::Overflowing, ..s },
                DbAction::SetBalance { a_id: s.a_id, balance: (s.tuples_per_page + 1) as i64 },
            )
        } else {
            (
                IndexReadExperiment { phase: IndexReadPhase::Complete { ok: false }, ..s },
                DbAction::Finished { ok: false },
            )
        },
        (IndexReadPhase::Overflowing, DbEvent::Done) => (
            IndexReadExperiment { phase: IndexReadPhase::CountingPagesAfter, ..s },
            DbAction::ReadPageCount,
        ),
        (IndexReadPhase::CountingPagesAfter, DbEvent::Pages(p)) => if p == 2 {
            (
                IndexReadExperiment { phase: IndexReadPhase::CountingAfterOverflow, ..s },
                DbAction::ReadIndexTupReads,
            )
        } else {
            (
                IndexReadExperiment { phase: IndexReadPhase::Complete { ok: false }, ..s },
                DbAction::Finished { ok: false },
            )
        },
        (IndexReadPhase::CountingAfterOverflow, DbEvent::Counter(c)) => if c == t + 1 {
            (
                IndexReadExperiment { phase: IndexReadPhase::SelectingSecond, ..s },
                DbAction::SelectProbeById { a_id: s.a_id },
            )
        } else {
            (
                IndexReadExperiment { phase: IndexReadPhase::Complete { ok: false }, ..s },
                DbAction::Finished { ok: false },
            )
        },
        (IndexReadPhase::SelectingSecond, DbEvent::Done) => (
            IndexReadExperiment { phase: IndexReadPhase::CountingFinal, ..s },
            DbAction::ReadIndexTupReads,
        ),
        (IndexReadPhase::CountingFinal, DbEvent::Counter(c)) => if c == t + 3 {
            (
                IndexReadExperiment { phase: IndexReadPhase::Committing, ..s },
                DbAction::CommitSnapshotTx,
            )
        } else {
            (
                IndexReadExperiment { phase: IndexReadPhase::Complete { ok: false }, ..s },
                DbAction::Finished { ok: false },
            )
        },
        (IndexReadPhase::Committing, DbEvent::Done) => (
            IndexReadExperiment { phase: IndexReadPhase::Complete { ok: true }, ..s },
            DbAction::Finished { ok: true },
        ),
        _ => (
            IndexReadExperiment { phase: IndexReadPhase::Complete { ok: false }, ..s },
            DbAction::Finished { ok: false },
        ),
    }
}

impl IndexReadExperiment {
    /// The page bound is positive and small enough for every derived
    /// quantity to fit.
    pub open spec fn wf(&self) -> bool {
        &&& 2 <= self.tuples_per_page <= 1000000
        &&& 0 <= self.next_balance <= self.tuples_per_page
    }

    /// A driver for the given environment-derived page bound.
    pub fn new(tuples_per_page: i64) -> (r: Self)
        requires
            2 <= tuples_per_page <= 1000000,
        ensures
            r == (IndexReadExperiment {
                tuples_per_page,
                a_id: 0,
                next_balance: 0,
                phase: IndexReadPhase::Ready,
            }),
            r.wf(),
    {
        IndexReadExperiment { tuples_per_page, a_id: 0, next_balance: 0, phase: IndexReadPhase::Ready }
    }

    /// Consume the previous action's result and decide the next action.
    pub fn next(&mut self, ev: DbEvent) -> (act: DbAction)
        requires
            old(self).wf(),
        ensures
            final(self).wf(),
            (*final(self), act) == index_read_step(*old(self), ev),
    {
        match (self.phase, ev) {
            (IndexReadPhase::Ready, DbEvent::Start) => {
                self.phase = IndexReadPhase::Resetting;
                DbAction::ResetAccounts
            },
            (IndexReadPhase::Resetting, DbEvent::Done) => {
                self.phase = IndexReadPhase::DisablingSeqScan;
                DbAction::DisableSeqScan
            },
            (IndexReadPhase::DisablingSeqScan, DbEvent::Done) => {
                self.phase = IndexReadPhase::Upserting;
                DbAction::UpsertProbeAccount
            },
            (IndexReadPhase::Upserting, DbEvent::UpsertedId(id)) => {
                self.phase = IndexReadPhase::Pinning;
                self.a_id = id;
                DbAction::BeginSnapshotTx { relation: SnapshotRelation::Accounts }
            },
            (IndexReadPhase::Pinning, DbEvent::Done) => {
                self.phase = IndexReadPhase::Filling;
                self.next_balance = 2;
                DbAction::SetBalance { a_id: self.a_id, balance: 1 }
            },
            (IndexReadPhase::Filling, DbEvent::Done) => {
                if self.next_balance <= self.tuples_per_page - 1 {
                    let balance = self.next_balance;
                    self.next_balance = balance + 1;
                    DbAction::SetBalance { a_id: self.a_id, balance }
                } else {
                    self.phase = IndexReadPhase::CountingInitial;
                    DbAction::ReadIndexTupReads
                }
            },
            (IndexReadPhase::CountingInitial, DbEvent::Counter(c)) => {
                if c == self.tuples_per_page - 1 {
                    self.phase = IndexReadPhase::SelectingFirst;
                    DbAction::SelectProbeById { a_id: self.a_id }
                } else {
                    self.phase = IndexReadPhase::Complete { ok: false };
                    DbAction::Finished { ok: false }
                }
            },
            (IndexReadPhase::SelectingFirst, DbEvent::Done) => {
                self.phase = IndexReadPhase::CountingAfterSelect;
                DbAction::ReadIndexTupReads
            },
            (IndexReadPhase::CountingAfterSelect, DbEvent::Counter(c)) => {
                if c == self.tuples_per_page {
                    self.phase = IndexReadPhase::CountingPagesBefore;
                    DbAction::ReadPageCount
                } else {
                    self.phase = IndexReadPhase::Complete { ok: false };
                    DbAction::Finished { ok: false }
                }
            },
            (IndexReadPhase::CountingPagesBefore, DbEvent::Pages(p)) => {
                if p == 1 {
                    self.phase = IndexReadPhase::Overflowing;
                    DbAction::SetBalance {
                        a_id: self.a_id,
                        balance: self.tuples_per_page + 1,
                    }
                } else {
                    self.phase = IndexReadPhase::Complete { ok: false };
                    DbAction::Finished { ok: false }
                }
            },
            (IndexReadPhase::Overflowing, DbEvent::Done) => {
                self.phase = IndexReadPhase::CountingPagesAfter;
                DbAction::ReadPageCount
            },
            (IndexReadPhase::CountingPagesAfter, DbEvent::Pages(p)) => {
                if p == 2 {
                    self.phase = IndexReadPhase::CountingAfterOverflow;
                    DbAction::ReadIndexTupReads
                } else {
                    self.phase = IndexReadPhase::Complete { ok: false };
                    DbAction::Finished { ok: false }
                }
            },
            (IndexReadPhase::CountingAfterOverflow, DbEvent::Counter(c)) => {
                if c == self.tuples_per_page + 1 {
                    self.phase = IndexReadPhase::SelectingSecond;
                    DbAction::SelectProbeById { a_id: self.a_id }
                } else {
                    self.phase = IndexReadPhase::Complete { ok: false };
                    DbAction::Finished { ok: false }
                }
            },
            (IndexReadPhase::SelectingSecond, DbEvent::Done) => {
                self.phase = IndexReadPhase::CountingFinal;
                DbAction::ReadIndexTupReads
            },
            (IndexReadPhase::CountingFinal, DbEvent::Counter(c)) => {
                if c == self.tuples_per_page + 3 {
                    self.phase = IndexReadPhase::Committing;
                    DbAction::CommitSnapshotTx
                } else {
                    self.phase = IndexReadPhase::Complete { ok: false };
                    DbAction::Finished { ok: false }
                }
            },
            (IndexReadPhase::Committing, DbEvent::Done) => {
                self.phase = IndexReadPhase::Complete { ok: true };
                DbAction::Finished { ok: true }
            },
            _ => {
                self.phase = IndexReadPhase::Complete { ok: false };
                DbAction::Finished { ok: false }
            },
        }
    }
}

} // verus!
