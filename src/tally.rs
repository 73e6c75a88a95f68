//! In-process tallies that mirror what each instrument has been handed:
//! histogram bucket counts and reason-keyed counter series.

use vstd::prelude::*;
use vstd::string::StringExecFns;

verus! {

/// Number of observations in `obs` that are at most `bound`.
pub open spec fn count_at_most(obs: Seq<u64>, bound: u64) -> nat
    decreases obs.len(),
{
    if obs.len() == 0 {
        0
    } else {
        count_at_most(obs.drop_last(), bound) + if obs.last() <= bound { 1nat } else { 0nat }
    }
}

/// A histogram with fixed upper bucket bounds. Bucket counts are
/// cumulative: bucket `i` counts the observations at most `bounds[i]`.
/// Counts and the sum wrap around at `u64::MAX`, as the underlying
/// atomic counters of the exporter do.
pub struct HistogramTally {
    bounds: Vec<u64>,
    buckets: Vec<u64>,
    count: u64,
    sum: u64,
}

impl HistogramTally {
    pub closed spec fn bounds(&self) -> Seq<u64> {
        self.bounds@
    }

    pub closed spec fn buckets(&self) -> Seq<u64> {
        self.buckets@
    }

    pub closed spec fn count(&self) -> u64 {
        self.count
    }

    pub closed spec fn sum(&self) -> u64 {
        self.sum
    }

    pub open spec fn wf(&self) -> bool {
        self.buckets().len() == self.bounds().len()
    }

    /// An empty histogram with the given bucket bounds.
    pub fn new(bounds: Vec<u64>) -> (r: Self)
        ensures
            r.wf(),
            r.bounds() == bounds@,
            r.buckets() == Seq::new(bounds@.len(), |i: int| 0u64),
            r.count() == 0,
            r.sum() == 0,
    {
        let mut buckets: Vec<u64> = Vec::new();
        let mut i: usize = 0;
        while i < bounds.len()
            invariant
                i <= bounds@.len(),
                buckets@ == Seq::new(i as nat, |k: int| 0u64),
            decreases bounds@.len() - i,
        {
            buckets.push(0);
            i = i + 1;
            assert(buckets@ =~= Seq::new(i as nat, |k: int| 0u64));
        }
        HistogramTally { bounds, buckets, count: 0, sum: 0 }
    }

    /// Adds one observation: the count grows by one, the sum by `v`, and
    /// every bucket whose bound is at least `v` by one.
    pub fn observe(&mut self, v: u64)
        requires
            old(self).wf(),
        ensures
            final(self).wf(),
            final(self).bounds() == old(self).bounds(),
            final(self).count() == old(self).count().wrapping_add(1),
            final(self).sum() == old(self).sum().wrapping_add(v),
            final(self).buckets() == Seq::new(
                old(self).buckets().len(),
                |i: int|
                    if v <= old(self).bounds()[i] {
                        old(self).buckets()[i].wrapping_add(1)
                    } else {
                        old(self).buckets()[i]
                    },
            ),
    {
        let ghost b0 = self.buckets@;
        let mut i: usize = 0;
        while i < self.buckets.len()
            invariant
                self.buckets@.len() == b0.len(),
                self.bounds@.len() == b0.len(),
                self.bounds@ == old(self).bounds@,
                self.count == old(self).count,
                self.sum == old(self).sum,
                i <= b0.len(),
                forall|k: int|
                    0 <= k < i ==> #[trigger] self.buckets@[k] == (if v <= self.bounds@[k] {
                        b0[k].wrapping_add(1)
                    } else {
                        b0[k]
                    }),
                forall|k: int| i <= k < b0.len() ==> #[trigger] self.buckets@[k] == b0[k],
            decreases b0.len() - i,
        {
            if v <= self.bounds[i] {
                let c = self.buckets[i];
                self.buckets.set(i, c.wrapping_add(1));
            }
            i = i + 1;
        }
        self.count = self.count.wrapping_add(1);
        self.sum = self.sum.wrapping_add(v);
        assert(self.buckets@ =~= Seq::new(
            b0.len(),
            |k: int|
                if v <= self.bounds@[k] {
                    b0[k].wrapping_add(1)
                } else {
                    b0[k]
                },
        ));
    }

    /// Number of observations so far.
    pub fn observations(&self) -> (r: u64)
        ensures
            r == self.count(),
    {
        self.count
    }

    /// Sum of the observed values.
    pub fn total(&self) -> (r: u64)
        ensures
            r == self.sum(),
    {
        self.sum
    }

    /// Cumulative count of bucket `i`.
    pub fn bucket_count(&self, i: usize) -> (r: u64)
        requires
            self.wf(),
            i < self.buckets().len(),
        ensures
            r == self.buckets()[i as int],
    {
        self.buckets[i]
    }

    /// Number of buckets.
    pub fn bucket_len(&self) -> (r: usize)
        ensures
            r == self.buckets().len(),
    {
        self.buckets.len()
    }
}

/// One label value of a reason-keyed series and how often it was seen.
pub struct SeriesEntry {
    pub label: String,
    pub count: u64,
}

/// True when no two entries carry the same label.
pub open spec fn labels_unique(s: Seq<SeriesEntry>) -> bool {
    forall|i: int, j: int|
        0 <= i < s.len() && 0 <= j < s.len() && i != j ==> (#[trigger] s[i]).label@ != (#[trigger] s[j]).label@
}

/// The count held for `label` in `s`: that of its entry, or zero without one.
pub open spec fn entry_count(s: Seq<SeriesEntry>, label: Seq<char>) -> u64 {
    if exists|i: int| 0 <= i < s.len() && (#[trigger] s[i]).label@ == label {
        s[choose|i: int| 0 <= i < s.len() && (#[trigger] s[i]).label@ == label].count
    } else {
        0
    }
}

/// A counter broken down by one label (a drop reason, an error kind, a
/// user id). A label value gets its entry on first use and keeps it for the
/// life of the series, so the number of entries grows with the number of
/// distinct values seen: an accepted cost of the breakdown.
pub struct LabeledSeries {
    entries: Vec<SeriesEntry>,
}

impl LabeledSeries {
    pub closed spec fn entries(&self) -> Seq<SeriesEntry> {
        self.entries@
    }

    pub open spec fn wf(&self) -> bool {
        labels_unique(self.entries())
    }

    /// The count held for `label`.
    pub open spec fn count_of(&self, label: Seq<char>) -> u64 {
        entry_count(self.entries(), label)
    }

    /// A series with no label value seen yet.
    pub fn new() -> (r: Self)
        ensures
            r.wf(),
            forall|l: Seq<char>| r.count_of(l) == 0,
    {
        LabeledSeries { entries: Vec::new() }
    }

    fn position(&self, label: &String) -> (r: Option<usize>)
        requires
            self.wf(),
        ensures
            r is None ==> forall|i: int|
                0 <= i < self.entries().len() ==> (#[trigger] self.entries()[i]).label@ != label@,
            r matches Some(i) ==> i < self.entries().len() && self.entries()[i as int].label@ == label@,
    {
        let mut i: usize = 0;
        while i < self.entries.len()
            invariant
                i <= self.entries@.len(),
                forall|k: int| 0 <= k < i ==> (#[trigger] self.entries@[k]).label@ != label@,
            decreases self.entries@.len() - i,
        {
            let cur = &self.entries[i];
            if cur.label == *label {
                return Some(i);
            }
            i = i + 1;
        }
        None
    }

    /// The count held for `label`.
    pub fn get(&self, label: &str) -> (r: u64)
        requires
            self.wf(),
        ensures
            r == self.count_of(label@),
    {
        let l = String::from_str(label);
        match self.position(&l) {
            Some(i) => {
                assert(self.entries()[i as int].label@ == label@);
                let ghost j = choose|j: int|
                    0 <= j < self.entries().len() && (#[trigger] self.entries()[j]).label@ == label@;
                assert(j == i);
                self.entries[i].count
            },
            None => 0,
        }
    }

    /// Adds `n` to the count of `label`; every other label keeps its count.
    pub fn add(&mut self, label: &str, n: u64)
        requires
            old(self).wf(),
        ensures
            final(self).wf(),
            final(self).count_of(label@) == old(self).count_of(label@).wrapping_add(n),
            forall|l: Seq<char>| l != label@ ==> final(self).count_of(l) == old(self).count_of(l),
    {
        let l = String::from_str(label);
        let ghost s0 = self.entries@;
        match self.position(&l) {
            Some(i) => {
                let ghost j = choose|j: int| 0 <= j < s0.len() && (#[trigger] s0[j]).label@ == label@;
                assert(j == i);
                let c = self.entries[i].count;
                let e = SeriesEntry { label: l, count: c.wrapping_add(n) };
                self.entries.set(i, e);
                let ghost s1 = self.entries@;
                assert(s1[i as int].label@ == label@);
                assert forall|a: int, b: int|
                    0 <= a < s1.len() && 0 <= b < s1.len() && a != b implies (#[trigger] s1[a]).label@
                        != (#[trigger] s1[b]).label@ by {
                    assert(s0[a].label@ == s1[a].label@);
                    assert(s0[b].label@ == s1[b].label@);
                }
                let ghost k = choose|k: int| 0 <= k < s1.len() && (#[trigger] s1[k]).label@ == label@;
                assert(k == i);
                assert forall|x: Seq<char>| x != label@ implies entry_count(s1, x) == entry_count(s0, x) by {
                    if exists|p: int| 0 <= p < s0.len() && (#[trigger] s0[p]).label@ == x {
                        let p = choose|p: int| 0 <= p < s0.len() && (#[trigger] s0[p]).label@ == x;
                        assert(s1[p].label@ == x);
                        let q = choose|q: int| 0 <= q < s1.len() && (#[trigger] s1[q]).label@ == x;
                        assert(s0[q].label@ == x);
                    } else {
                        assert forall|q: int| 0 <= q < s1.len() implies (#[trigger] s1[q]).label@ != x by {
                            assert(s0[q].label@ == s1[q].label@);
                        }
                    }
                }
            },
            None => {
                let e = SeriesEntry { label: l, count: n };
                self.entries.push(e);
                let ghost s1 = self.entries@;
                let ghost last = s0.len() as int;
                assert(s1[last].label@ == label@);
                assert forall|a: int, b: int|
                    0 <= a < s1.len() && 0 <= b < s1.len() && a != b implies (#[trigger] s1[a]).label@
                        != (#[trigger] s1[b]).label@ by {
                    if a < last && b < last {
                        assert(s0[a].label@ == s1[a].label@);
                        assert(s0[b].label@ == s1[b].label@);
                    } else if a < last {
                        assert(s0[a].label@ == s1[a].label@);
                    } else if b < last {
                        assert(s0[b].label@ == s1[b].label@);
                    }
                }
                let ghost k = choose|k: int| 0 <= k < s1.len() && (#[trigger] s1[k]).label@ == label@;
                assert(k == last);
                assert(0u64.wrapping_add(n) == n);
                assert forall|x: Seq<char>| x != label@ implies entry_count(s1, x) == entry_count(s0, x) by {
                    if exists|p: int| 0 <= p < s0.len() && (#[trigger] s0[p]).label@ == x {
                        let p = choose|p: int| 0 <= p < s0.len() && (#[trigger] s0[p]).label@ == x;
                        assert(s1[p].label@ == x);
                        let q = choose|q: int| 0 <= q < s1.len() && (#[trigger] s1[q]).label@ == x;
                        assert(q != last);
                        assert(s0[q].label@ == x);
                    } else {
                        assert forall|q: int| 0 <= q < s1.len() implies (#[trigger] s1[q]).label@ != x by {
                            if q < last {
                                assert(s0[q].label@ == s1[q].label@);
                            }
                        }
                    }
                }
            },
        }
    }
}

} // verus!
