//! Page Inspector: per-tuple line-pointer diagnostics of a heap page and
//! their classification into a count-by-status mapping.
use vstd::prelude::*;
use vstd::multiset::Multiset;
use vstd::seq_lib::group_to_multiset_ensures;

verus! {

/// One record per physical line pointer of a heap page: the line pointer's
/// status flag, and the creating / expiring transaction-id stamps of the
/// tuple version. The stamps are carried as text because transaction ids can
/// exceed the range a client library handles as a signed 32-bit integer.
pub struct HeapPageItem {
    pub lp_flags: i32,
    pub t_xmin: Option<String>,
    pub t_xmax: Option<String>,
}

/// How often `x` occurs in `s`.
pub open spec fn count_in<T>(s: Seq<T>, x: T) -> nat
    decreases s.len(),
{
    if s.len() == 0 {
        0
    } else {
        count_in(s.drop_last(), x) + (if s.last() == x {
            1nat
        } else {
            0nat
        })
    }
}

/// The status flags of a sequence of diagnostic records, in on-page order.
pub open spec fn flags_of(items: Seq<HeapPageItem>) -> Seq<i32> {
    items.map(|i: int, item: HeapPageItem| item.lp_flags)
}

/// The mapping from status flag to occurrence count described by a sequence
/// of flags: its domain is exactly the flags that occur at least once.
pub open spec fn classification(flags: Seq<i32>) -> Map<i32, nat> {
    Map::new(|f: i32| count_in(flags, f) > 0, |f: i32| count_in(flags, f))
}

/// First-match lookup in an association sequence of (flag, count) entries.
pub open spec fn seq_get(s: Seq<(i32, usize)>, f: i32) -> Option<usize>
    decreases s.len(),
{
    if s.len() == 0 {
        None
    } else if s[0].0 == f {
        Some(s[0].1)
    } else {
        seq_get(s.drop_first(), f)
    }
}

/// The occurrence count of `f` in `flags` as an optional entry: absent
/// flags have no entry rather than a zero count.
pub open spec fn count_opt(flags: Seq<i32>, f: i32) -> Option<usize> {
    if count_in(flags, f) > 0 {
        Some(count_in(flags, f) as usize)
    } else {
        None
    }
}

/// A status-count mapping: one entry per status flag that occurred, held in
/// ascending flag order so that assertions on it are reproducible.
pub struct StatusCounts {
    pub entries: Vec<(i32, usize)>,
}

impl View for StatusCounts {
    type V = Map<i32, nat>;

    open spec fn view(&self) -> Map<i32, nat> {
        Map::new(
            |f: i32| seq_get(self.entries@, f) is Some,
            |f: i32| seq_get(self.entries@, f)->Some_0 as nat,
        )
    }
}

impl StatusCounts {
    /// Entries are sorted strictly ascending by flag and every count is
    /// positive.
    pub open spec fn wf(&self) -> bool {
        &&& forall|i: int, j: int|
            0 <= i < j < self.entries@.len() ==> self.entries@[i].0 < self.entries@[j].0
        &&& forall|i: int| 0 <= i < self.entries@.len() ==> self.entries@[i].1 > 0
    }

    /// The count recorded for `flag`, or `None` if no record had it.
    pub fn get(&self, flag: i32) -> (r: Option<usize>)
        ensures
            r == seq_get(self.entries@, flag),
    {
        let mut i: usize = 0;
        while i < self.entries.len()
            invariant
                i <= self.entries@.len(),
                forall|j: int| 0 <= j < i ==> self.entries@[j].0 != flag,
            decreases self.entries@.len() - i,
        {
            if self.entries[i].0 == flag {
                proof {
                    lemma_seq_get_skip(self.entries@, i as int, flag);
                    assert(self.entries@.skip(i as int)[0] == self.entries@[i as int]);
                }
                return Some(self.entries[i].1);
            }
            i += 1;
        }
        proof {
            lemma_seq_get_skip(self.entries@, i as int, flag);
            assert(self.entries@.skip(i as int).len() == 0);
        }
        None
    }

    /// How many distinct status flags occurred.
    pub fn len(&self) -> (n: usize)
        ensures
            n == self.entries@.len(),
    {
        self.entries.len()
    }

    /// Record one more occurrence of `flag`, inserting a fresh entry at the
    /// sorted position if the flag is new.
    fn bump(&mut self, flag: i32)
        requires
            old(self).wf(),
            seq_get(old(self).entries@, flag) matches Some(c) ==> c < usize::MAX,
        ensures
            final(self).wf(),
            seq_get(final(self).entries@, flag) == match seq_get(old(self).entries@, flag) {
                Some(c) => Some((c + 1) as usize),
                None => Some(1usize),
            },
            forall|g: i32|
                g != flag ==> seq_get(final(self).entries@, g) == seq_get(old(self).entries@, g),
    {
        let mut i: usize = 0;
        while i < self.entries.len() && self.entries[i].0 < flag
            invariant
                i <= self.entries@.len(),
                forall|j: int| 0 <= j < i ==> self.entries@[j].0 < flag,
                *self == *old(self),
            decreases self.entries@.len() - i,
        {
            i += 1;
        }
        proof {
            lemma_seq_get_skip(self.entries@, i as int, flag);
        }
        if i < self.entries.len() && self.entries[i].0 == flag {
            let c = self.entries[i].1;
            proof {
                assert(self.entries@.skip(i as int)[0] == self.entries@[i as int]);
                assert(seq_get(old(self).entries@, flag) == Some(c));
            }
            self.entries.set(i, (flag, c + 1));
            proof {
                let s_old = old(self).entries@;
                let s_new = self.entries@;
                assert(s_new == s_old.update(i as int, (flag, (c + 1) as usize)));
                lemma_seq_get_skip(s_new, i as int, flag);
                assert(s_new.skip(i as int)[0] == s_new[i as int]);
                assert forall|g: i32| g != flag implies seq_get(s_new, g) == seq_get(
                    s_old,
                    g,
                ) by {
                    lemma_seq_get_update_other(s_old, i as int, (flag, (c + 1) as usize), g);
                }
            }
        } else {
            proof {
                let s = self.entries@;
                assert forall|j: int| 0 <= j < s.skip(i as int).len() implies s.skip(i as int)[j].0
                    != flag by {
                    assert(s.skip(i as int)[j] == s[j + i]);
                }
                lemma_seq_get_absent(s.skip(i as int), flag);
                assert(seq_get(old(self).entries@, flag) is None);
            }
            self.entries.insert(i, (flag, 1));
            proof {
                let s_old = old(self).entries@;
                let s_new = self.entries@;
                assert(s_new == s_old.insert(i as int, (flag, 1usize)));
                assert forall|p: int, q: int| 0 <= p < q < s_new.len() implies s_new[p].0
                    < s_new[q].0 by {
                    assert(forall|j: int|
                        i <= j < s_old.len() ==> s_old[j].0 > flag);
                }
                lemma_seq_get_skip(s_new, i as int, flag);
                assert(s_new.skip(i as int)[0] == s_new[i as int]);
                assert forall|g: i32| g != flag implies seq_get(s_new, g) == seq_get(
                    s_old,
                    g,
                ) by {
                    lemma_seq_get_insert_other(s_old, i as int, (flag, 1usize), g);
                }
            }
        }
    }
}

/// A flag that occurs in no entry has no lookup result.
proof fn lemma_seq_get_absent(s: Seq<(i32, usize)>, f: i32)
    requires
        forall|j: int| 0 <= j < s.len() ==> s[j].0 != f,
    ensures
        seq_get(s, f) is None,
    decreases s.len(),
{
    if s.len() > 0 {
        lemma_seq_get_absent(s.drop_first(), f);
    }
}

/// A lookup skips any prefix in which the flag does not occur.
proof fn lemma_seq_get_skip(s: Seq<(i32, usize)>, i: int, f: i32)
    requires
        0 <= i <= s.len(),
        forall|j: int| 0 <= j < i ==> s[j].0 != f,
    ensures
        seq_get(s, f) == seq_get(s.skip(i), f),
    decreases i,
{
    if i > 0 {
        assert(s.drop_first() =~= s.skip(1));
        lemma_seq_get_skip(s.drop_first(), i - 1, f);
        assert(s.drop_first().skip(i - 1) =~= s.skip(i));
    } else {
        assert(s.skip(0) =~= s);
    }
}

/// Replacing the entry at `i` by one with the same flag leaves the lookup of
/// every other flag unchanged.
proof fn lemma_seq_get_update_other(s: Seq<(i32, usize)>, i: int, e: (i32, usize), g: i32)
    requires
        0 <= i < s.len(),
        s[i].0 == e.0,
        g != e.0,
    ensures
        seq_get(s.update(i, e), g) == seq_get(s, g),
    decreases s.len(),
{
    let s2 = s.update(i, e);
    if i == 0 {
        assert(s2.drop_first() =~= s.drop_first());
    } else {
        assert(s2[0] == s[0]);
        if s[0].0 != g {
            assert(s2.drop_first() =~= s.drop_first().update(i - 1, e));
            lemma_seq_get_update_other(s.drop_first(), i - 1, e, g);
        }
    }
}

/// Inserting an entry for one flag leaves the lookup of every other flag
/// unchanged.
proof fn lemma_seq_get_insert_other(s: Seq<(i32, usize)>, i: int, e: (i32, usize), g: i32)
    requires
        0 <= i <= s.len(),
        g != e.0,
    ensures
        seq_get(s.insert(i, e), g) == seq_get(s, g),
    decreases i,
{
    let s2 = s.insert(i, e);
    if i == 0 {
        assert(s2[0] == e);
        assert(s2.drop_first() =~= s);
    } else {
        assert(s2[0] == s[0]);
        if s[0].0 != g {
            assert(s2.drop_first() =~= s.drop_first().insert(i - 1, e));
            lemma_seq_get_insert_other(s.drop_first(), i - 1, e, g);
        }
    }
}

/// No flag occurs more often than there are records.
pub proof fn lemma_count_le_len<T>(s: Seq<T>, x: T)
    ensures
        count_in(s, x) <= s.len(),
    decreases s.len(),
{
    if s.len() > 0 {
        lemma_count_le_len(s.drop_last(), x);
    }
}

/// Classify the given diagnostic records by status flag: the result maps
/// each flag that occurs to its occurrence count, with entries in ascending
/// flag order.
pub fn count_tuples_by_lpflag(heap_page_items: Vec<HeapPageItem>) -> (r: StatusCounts)
    ensures
        r.wf(),
        forall|f: i32| seq_get(r.entries@, f) == count_opt(flags_of(heap_page_items@), f),
        r@ == classification(flags_of(heap_page_items@)),
{
    let ghost flags = flags_of(heap_page_items@);
    let mut r = StatusCounts { entries: Vec::new() };
    let mut idx: usize = 0;
    proof {
        assert(flags.take(0) =~= Seq::<i32>::empty());
    }
    while idx < heap_page_items.len()
        invariant
            idx <= heap_page_items@.len(),
            flags == flags_of(heap_page_items@),
            r.wf(),
            forall|f: i32| seq_get(r.entries@, f) == count_opt(flags.take(idx as int), f),
        decreases heap_page_items@.len() - idx,
    {
        let flag = heap_page_items[idx].lp_flags;
        proof {
            assert(flags[idx as int] == flag);
            lemma_count_le_len(flags.take(idx as int), flag);
        }
        r.bump(flag);
        proof {
            assert forall|f: i32|
                count_in(flags.take(idx as int + 1), f) == count_in(flags.take(idx as int), f) + (
                if f == flag {
                    1nat
                } else {
                    0nat
                }) by {
                assert(flags.take(idx as int + 1).drop_last() =~= flags.take(idx as int));
                assert(flags.take(idx as int + 1).last() == flag);
            }
        }
        idx += 1;
    }
    proof {
        assert(flags.take(idx as int) =~= flags);
        let c = classification(flags);
        assert forall|f: i32| r@.dom().contains(f) == c.dom().contains(f) by {
            assert(seq_get(r.entries@, f) == count_opt(flags, f));
        }
        assert forall|f: i32| r@.dom().contains(f) implies r@[f] == c[f] by {
            lemma_count_le_len(flags, f);
            assert(seq_get(r.entries@, f) == count_opt(flags, f));
        }
        assert(r@ =~= c);
    }
    r
}

/// The classification of a record sequence depends only on which flags occur
/// how often, never on their order: `count_in` agrees with the multiset
/// count.
pub proof fn lemma_count_in_eq_multiset_count<T>(s: Seq<T>, x: T)
    ensures
        count_in(s, x) == s.to_multiset().count(x),
    decreases s.len(),
{
    broadcast use group_to_multiset_ensures;

    if s.len() == 0 {
        assert(s.to_multiset() =~= Multiset::<T>::empty());
    } else {
        lemma_count_in_eq_multiset_count(s.drop_last(), x);
        assert(s =~= s.drop_last().push(s.last()));
        assert(s.to_multiset() =~= s.drop_last().to_multiset().insert(s.last()));
    }
}

/// Order independence: permuting the record sequence (stated as equality of
/// the flag multisets) yields an identical classification mapping.
pub proof fn lemma_classification_permutation(s1: Seq<i32>, s2: Seq<i32>)
    requires
        s1.to_multiset() == s2.to_multiset(),
    ensures
        classification(s1) == classification(s2),
{
    assert forall|f: i32| count_in(s1, f) == count_in(s2, f) by {
        lemma_count_in_eq_multiset_count(s1, f);
        lemma_count_in_eq_multiset_count(s2, f);
    }
    assert(classification(s1) =~= classification(s2));
}

/// An empty record sequence classifies to the empty mapping.
pub proof fn lemma_classification_empty()
    ensures
        classification(Seq::<i32>::empty()) == Map::<i32, nat>::empty(),
{
    assert(classification(Seq::<i32>::empty()) =~= Map::<i32, nat>::empty());
}

/// In a uniform sequence every element is the one flag.
proof fn lemma_count_in_uniform(n: nat, f: i32, g: i32)
    ensures
        count_in(Seq::new(n, |i: int| f), g) == if g == f {
            n
        } else {
            0nat
        },
    decreases n,
{
    let s = Seq::new(n, |i: int| f);
    if n > 0 {
        lemma_count_in_uniform((n - 1) as nat, f, g);
        assert(s.drop_last() =~= Seq::new((n - 1) as nat, |i: int| f));
    }
}

/// A sequence of `n > 0` records that all share one status flag classifies
/// to a single entry carrying count `n`.
pub proof fn lemma_classification_uniform(n: nat, f: i32)
    requires
        n > 0,
    ensures
        classification(Seq::new(n, |i: int| f)) == map![f => n],
{
    let s = Seq::new(n, |i: int| f);
    assert forall|g: i32| #[trigger] count_in(s, g) == if g == f {
        n
    } else {
        0nat
    } by {
        lemma_count_in_uniform(n, f, g);
    }
    assert(classification(s) =~= map![f => n]);
}

} // verus!
