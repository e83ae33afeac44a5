//! Restoring discovery order over records that arrived in any order.
//!
//! Workers finish in whatever order the scheduler lets them; the batch
//! output is made reproducible by sorting the collected records by their
//! frame index. This module holds the sort and the laws around it: the
//! sorted order is unique, so the output does not depend on completion
//! order.

use vstd::prelude::*;

use crate::structs::FrameResult;

verus! {

/// Frame indices never decrease along the sequence.
pub open spec fn sorted_by_frame(s: Seq<FrameResult>) -> bool {
    forall|i: int, j: int| 0 <= i < j < s.len()
        ==> #[trigger] s[i].frame <= #[trigger] s[j].frame
}

/// No two entries carry the same frame index.
pub open spec fn distinct_frames(s: Seq<FrameResult>) -> bool {
    forall|i: int, j: int| 0 <= i < j < s.len()
        ==> #[trigger] s[i].frame != #[trigger] s[j].frame
}

/// Frame indices increase strictly along the sequence.
pub open spec fn strictly_sorted_by_frame(s: Seq<FrameResult>) -> bool {
    forall|i: int, j: int| 0 <= i < j < s.len()
        ==> #[trigger] s[i].frame < #[trigger] s[j].frame
}

/// A sequence sorted by frame whose frames are distinct is strictly
/// ascending.
pub proof fn lemma_sorted_distinct_strict(s: Seq<FrameResult>)
    requires
        sorted_by_frame(s),
        distinct_frames(s),
    ensures
        strictly_sorted_by_frame(s),
{
}

/// Sorts the records ascending by frame index. The result holds exactly
/// the input records, each as often as it came in.
pub fn sort_records(v: &Vec<FrameResult>) -> (r: Vec<FrameResult>)
    ensures
        sorted_by_frame(r@),
        r@.to_multiset() == v@.to_multiset(),
        r@.len() == v@.len(),
{
    broadcast use vstd::seq_lib::group_to_multiset_ensures;

    let mut r: Vec<FrameResult> = Vec::new();
    assert(r@.to_multiset() =~= v@.take(0).to_multiset());
    for idx in 0..v.len()
        invariant
            sorted_by_frame(r@),
            r@.to_multiset() == v@.take(idx as int).to_multiset(),
            r@.len() == idx,
    {
        let x = v[idx];
        let mut p: usize = 0;
        while p < r.len() && r[p].frame <= x.frame
            invariant
                p <= r@.len(),
                forall|k: int| 0 <= k < p ==> #[trigger] r@[k].frame <= x.frame,
            decreases r@.len() - p,
        {
            p += 1;
        }
        let ghost before = r@;
        r.insert(p, x);
        proof {
            broadcast use vstd::seq_lib::group_to_multiset_ensures;

            before.insert_ensures(p as int, x);
            assert forall|i: int, j: int| 0 <= i < j < r@.len()
                implies #[trigger] r@[i].frame <= #[trigger] r@[j].frame by {
                if j < p {
                    assert(r@[i] == before[i] && r@[j] == before[j]);
                } else if i > p {
                    assert(r@[i] == before[i - 1] && r@[j] == before[j - 1]);
                } else if i < p && j == p {
                    assert(r@[i] == before[i] && r@[j] == x);
                } else if i == p {
                    assert(r@[i] == x && r@[j] == before[j - 1]);
                    assert(before[p as int].frame > x.frame);
                    assert(before[j - 1].frame >= before[p as int].frame);
                } else {
                    assert(i < p && j > p);
                    assert(r@[i] == before[i] && r@[j] == before[j - 1]);
                    assert(before[p as int].frame > x.frame || p == before.len());
                }
            }
            assert(v@.take(idx + 1) =~= v@.take(idx as int).push(x));
            assert(r@.to_multiset() =~= v@.take(idx + 1).to_multiset());
        }
    }
    assert(v@.take(v.len() as int) =~= v@);
    r
}

/// Any element counted by the multiset stands at some index.
proof fn lemma_count_has_index(s: Seq<FrameResult>, x: FrameResult)
    requires
        s.to_multiset().count(x) > 0,
    ensures
        exists|i: int| 0 <= i < s.len() && s[i] == x,
{
    broadcast use vstd::seq_lib::group_to_multiset_ensures;

    assert(s.contains(x));
}

/// An element standing at two indices is counted at least twice.
proof fn lemma_two_indices_count(s: Seq<FrameResult>, i: int, j: int)
    requires
        0 <= i < j < s.len(),
        s[i] == s[j],
    ensures
        s.to_multiset().count(s[i]) >= 2,
{
    broadcast use vstd::seq_lib::group_to_multiset_ensures;
    broadcast use vstd::multiset::group_multiset_axioms;

    let t = s.remove(i);
    s.remove_ensures(i);
    assert(t[j - 1] == s[i]);
    assert(t.contains(s[i]));
    assert(t.to_multiset().count(s[i]) > 0);
    assert(t.to_multiset() == s.to_multiset().remove(s[i]));
    assert(s.to_multiset().count(s[i]) > 0);
}

/// An element counted at least twice stands at two distinct indices.
proof fn lemma_count_two_indices(s: Seq<FrameResult>, x: FrameResult)
    requires
        s.to_multiset().count(x) >= 2,
    ensures
        exists|i: int, j: int| 0 <= i < j < s.len() && s[i] == x && s[j] == x,
{
    broadcast use vstd::seq_lib::group_to_multiset_ensures;
    broadcast use vstd::multiset::group_multiset_axioms;

    lemma_count_has_index(s, x);
    let i = choose|i: int| 0 <= i < s.len() && s[i] == x;
    let t = s.remove(i);
    s.remove_ensures(i);
    assert(t.to_multiset().count(x) >= 1);
    lemma_count_has_index(t, x);
    let k = choose|k: int| 0 <= k < t.len() && t[k] == x;
    if k < i {
        assert(s[k] == x);
        assert(0 <= k < i < s.len() && s[k] == x && s[i] == x);
    } else {
        assert(s[k + 1] == x);
        assert(0 <= i < k + 1 < s.len() && s[i] == x && s[k + 1] == x);
    }
}

/// Distinctness of frame indices is a property of the records alone: any
/// rearrangement of the same records keeps it.
pub proof fn lemma_distinct_preserved(a: Seq<FrameResult>, b: Seq<FrameResult>)
    requires
        distinct_frames(a),
        a.to_multiset() == b.to_multiset(),
    ensures
        distinct_frames(b),
{
    broadcast use vstd::seq_lib::group_to_multiset_ensures;
    broadcast use vstd::multiset::group_multiset_axioms;

    assert forall|i: int, j: int| 0 <= i < j < b.len()
        implies #[trigger] b[i].frame != #[trigger] b[j].frame by {
        if b[i] == b[j] {
            lemma_two_indices_count(b, i, j);
            lemma_count_two_indices(a, b[i]);
            let (i1, j1) = choose|i1: int, j1: int|
                0 <= i1 < j1 < a.len() && a[i1] == b[i] && a[j1] == b[i];
            assert(a[i1].frame != a[j1].frame);
            assert(false);
        } else if b[i].frame == b[j].frame {
            assert(b.contains(b[i]) && b.contains(b[j]));
            assert(a.to_multiset().count(b[i]) > 0);
            assert(a.to_multiset().count(b[j]) > 0);
            lemma_count_has_index(a, b[i]);
            lemma_count_has_index(a, b[j]);
            let i1 = choose|i1: int| 0 <= i1 < a.len() && a[i1] == b[i];
            let j1 = choose|j1: int| 0 <= j1 < a.len() && a[j1] == b[j];
            assert(i1 != j1);
            if i1 < j1 {
                assert(a[i1].frame != a[j1].frame);
            } else {
                assert(a[j1].frame != a[i1].frame);
            }
            assert(false);
        }
    }
}

/// Ordering law: two sorted sequences with distinct frame indices that
/// hold the same records are the same sequence. Whatever order the
/// records were collected in, sorting them restores one and the same
/// output.
pub proof fn lemma_sorted_unique(a: Seq<FrameResult>, b: Seq<FrameResult>)
    requires
        sorted_by_frame(a),
        sorted_by_frame(b),
        distinct_frames(a),
        distinct_frames(b),
        a.to_multiset() == b.to_multiset(),
    ensures
        a == b,
    decreases a.len(),
{
    broadcast use vstd::seq_lib::group_to_multiset_ensures;
    broadcast use vstd::multiset::group_multiset_axioms;

    a.to_multiset_ensures();
    b.to_multiset_ensures();
    assert(a.len() == b.len());
    if a.len() == 0 {
        assert(a =~= b);
    } else {
        assert(b.contains(b[0]));
        assert(a.to_multiset().count(b[0]) > 0);
        lemma_count_has_index(a, b[0]);
        let ia = choose|i: int| 0 <= i < a.len() && a[i] == b[0];
        assert(a.contains(a[0]));
        assert(b.to_multiset().count(a[0]) > 0);
        lemma_count_has_index(b, a[0]);
        let ib = choose|i: int| 0 <= i < b.len() && b[i] == a[0];
        assert(a[0].frame <= a[ia].frame);
        assert(b[0].frame <= b[ib].frame);
        assert(a[0].frame == b[0].frame);
        if ia != 0 {
            assert(a[0].frame != a[ia].frame);
            assert(false);
        }
        assert(a[0] == b[0]);
        let ta = a.remove(0);
        let tb = b.remove(0);
        a.remove_ensures(0);
        b.remove_ensures(0);
        assert(ta.to_multiset() == a.to_multiset().remove(a[0]));
        assert(tb.to_multiset() == b.to_multiset().remove(b[0]));
        assert(ta.to_multiset() == tb.to_multiset());
        assert(sorted_by_frame(ta));
        assert(sorted_by_frame(tb));
        assert(distinct_frames(ta));
        assert(distinct_frames(tb));
        lemma_sorted_unique(ta, tb);
        assert forall|i: int| 0 <= i < a.len() implies a[i] == b[i] by {
            if i > 0 {
                assert(ta[i - 1] == a[i]);
                assert(tb[i - 1] == b[i]);
            }
        }
        assert(a =~= b);
    }
}

/// Determinism law: however completion interleaves two runs over the
/// same pair set, collections that hold the same records — in any two
/// arrival orders — sort back to one and the same output sequence.
pub proof fn lemma_completion_order_irrelevant(
    a: Seq<FrameResult>,
    b: Seq<FrameResult>,
    ra: Seq<FrameResult>,
    rb: Seq<FrameResult>,
)
    requires
        distinct_frames(a),
        a.to_multiset() == b.to_multiset(),
        sorted_by_frame(ra),
        ra.to_multiset() == a.to_multiset(),
        sorted_by_frame(rb),
        rb.to_multiset() == b.to_multiset(),
    ensures
        ra == rb,
{
    lemma_distinct_preserved(a, ra);
    lemma_distinct_preserved(a, rb);
    lemma_sorted_unique(ra, rb);
}

} // verus!
