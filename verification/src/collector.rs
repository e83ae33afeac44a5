//! Fan-in of the batch: one outcome per submitted pair.
//!
//! Workers score pairs concurrently and hand their outcomes in one at a
//! time, in whatever order they finish. The collector accepts each frame
//! index exactly once, keeps successes and failures apart, and releases
//! the batch outcome only once every submitted pair is accounted for, so
//! `records + failures` always add up to the pair count.

use vstd::prelude::*;
use vstd::pervasive::VecAdditionalExecFns;

use crate::order::{distinct_frames, lemma_distinct_preserved, lemma_sorted_distinct_strict,
    sort_records, sorted_by_frame, strictly_sorted_by_frame};
use crate::structs::{BatchOutcome, FilePair, FrameResult, PairFailure, ScoreError};

verus! {

/// How many entries of the sequence are set.
pub open spec fn count_done(s: Seq<bool>) -> nat
    decreases s.len(),
{
    if s.len() == 0 {
        0
    } else {
        count_done(s.drop_last()) + (if s.last() { 1nat } else { 0nat })
    }
}

proof fn lemma_count_done_le(s: Seq<bool>)
    ensures
        count_done(s) <= s.len(),
    decreases s.len(),
{
    if s.len() > 0 {
        lemma_count_done_le(s.drop_last());
    }
}

proof fn lemma_count_done_push(s: Seq<bool>, b: bool)
    ensures
        count_done(s.push(b)) == count_done(s) + (if b { 1nat } else { 0nat }),
{
    assert(s.push(b).drop_last() =~= s);
    assert(s.push(b).last() == b);
}

proof fn lemma_count_done_update(s: Seq<bool>, i: int)
    requires
        0 <= i < s.len(),
        !s[i],
    ensures
        count_done(s.update(i, true)) == count_done(s) + 1,
    decreases s.len(),
{
    let t = s.update(i, true);
    if i == s.len() - 1 {
        assert(t.drop_last() =~= s.drop_last());
        assert(t.last());
        assert(!s.last());
    } else {
        assert(t.drop_last() =~= s.drop_last().update(i, true));
        assert(t.last() == s.last());
        lemma_count_done_update(s.drop_last(), i);
    }
}

/// Collects per-pair outcomes of one batch run. Each submitted pair is
/// identified by its frame index; each index is accepted exactly once,
/// as a success or as a failure.
pub struct BatchCollector {
    /// How many pairs the batch submitted.
    pub total: usize,
    /// The successful scores, in arrival order.
    pub records: Vec<FrameResult>,
    /// The recorded failures, in arrival order.
    pub failures: Vec<PairFailure>,
    /// Which frame indices have an outcome already.
    pub done: Vec<bool>,
}

impl BatchCollector {
    /// The collector's invariant: one slot per pair, every recorded
    /// outcome sits in its own slot, and the outcome count equals the
    /// number of filled slots.
    pub open spec fn inv(self) -> bool {
        &&& self.done@.len() == self.total
        &&& self.records@.len() + self.failures@.len() == count_done(self.done@)
        &&& forall|i: int| 0 <= i < self.records@.len()
            ==> (#[trigger] self.records@[i]).frame < self.total
                && self.done@[self.records@[i].frame as int]
        &&& forall|i: int| 0 <= i < self.failures@.len()
            ==> (#[trigger] self.failures@[i]).frame < self.total
                && self.done@[self.failures@[i].frame as int]
        &&& distinct_frames(self.records@)
        &&& forall|i: int, j: int|
            0 <= i < j < self.failures@.len()
                ==> (#[trigger] self.failures@[i]).frame
                    != (#[trigger] self.failures@[j]).frame
        &&& forall|i: int, j: int|
            0 <= i < self.records@.len() && 0 <= j < self.failures@.len()
                ==> (#[trigger] self.records@[i]).frame
                    != (#[trigger] self.failures@[j]).frame
    }

    /// A fresh collector for a batch of `total` pairs: nothing recorded,
    /// no slot filled.
    pub fn new(total: usize) -> (c: Self)
        ensures
            c.inv(),
            c.total == total,
            c.records@.len() == 0,
            c.failures@.len() == 0,
            forall|i: int| 0 <= i < total ==> !(#[trigger] c.done@[i]),
    {
        let mut done: Vec<bool> = Vec::new();
        for i in 0..total
            invariant
                done@.len() == i,
                count_done(done@) == 0,
                forall|k: int| 0 <= k < i ==> !(#[trigger] done@[k]),
        {
            proof {
                lemma_count_done_push(done@, false);
            }
            done.push(false);
        }
        BatchCollector { total, records: Vec::new(), failures: Vec::new(), done }
    }

    /// Records the score of the pair at `frame`. Nothing else changes:
    /// every other outcome is exactly as it was.
    pub fn record_success(&mut self, frame: u32, score: i64)
        requires
            old(self).inv(),
            (frame as int) < old(self).total as int,
            !old(self).done@[frame as int],
        ensures
            final(self).inv(),
            final(self).total == old(self).total,
            final(self).records@ == old(self).records@.push(
                (FrameResult { frame, ssimulacra2: score })),
            final(self).failures@ == old(self).failures@,
            final(self).done@ == old(self).done@.update(frame as int, true),
    {
        self.records.push(FrameResult { frame, ssimulacra2: score });
        self.done.set(frame as usize, true);
        proof {
            lemma_count_done_update(old(self).done@, frame as int);
        }
    }

    /// Records the failure of the pair at `frame`, keeping the pair and
    /// the error kind. The records gathered so far are untouched: one
    /// pair's failure never disturbs another pair's score.
    pub fn record_failure(&mut self, frame: u32, pair: FilePair, error: ScoreError)
        requires
            old(self).inv(),
            (frame as int) < old(self).total as int,
            !old(self).done@[frame as int],
        ensures
            final(self).inv(),
            final(self).total == old(self).total,
            final(self).records@ == old(self).records@,
            final(self).failures@ == old(self).failures@.push(
                (PairFailure { frame, pair, error })),
            final(self).done@ == old(self).done@.update(frame as int, true),
    {
        self.failures.push(PairFailure { frame, pair, error });
        self.done.set(frame as usize, true);
        proof {
            lemma_count_done_update(old(self).done@, frame as int);
        }
    }

    /// Whether every submitted pair has an outcome already.
    pub fn is_complete(&self) -> (b: bool)
        requires
            self.inv(),
        ensures
            b <==> self.records@.len() + self.failures@.len() == self.total as int,
    {
        proof {
            lemma_count_done_le(self.done@);
        }
        self.records.len() + self.failures.len() == self.total
    }

    /// Closes the batch: sorts the records back into discovery order and
    /// hands out the outcome. Completeness is preserved: records and
    /// failures together account for every submitted pair, one each.
    pub fn finish(self) -> (o: BatchOutcome)
        requires
            self.inv(),
            self.records@.len() + self.failures@.len() == self.total as int,
        ensures
            sorted_by_frame(o.records@),
            strictly_sorted_by_frame(o.records@),
            distinct_frames(o.records@),
            o.records@.to_multiset() == self.records@.to_multiset(),
            o.records@.len() == self.records@.len(),
            o.failures@ == self.failures@,
            o.records@.len() + o.failures@.len() == self.total as int,
    {
        let records = sort_records(&self.records);
        proof {
            lemma_distinct_preserved(self.records@, records@);
            lemma_sorted_distinct_strict(records@);
        }
        BatchOutcome { records, failures: self.failures }
    }
}

} // verus!
