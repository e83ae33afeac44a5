//! Summary statistics over the successful records of a batch.
//!
//! Statistics are computed over the scores alone, in fixed-point units;
//! failures never enter them. An empty record set has no statistics: it
//! is reported as `EmptyResultSet`, never as a default value.

use vstd::prelude::*;
use vstd::arithmetic::div_mod::{lemma_div_is_ordered, lemma_div_multiples_vanish,
    lemma_div_pos_is_pos};

use crate::structs::{BatchError, FrameResult, SummaryStatistics};

verus! {

/// The sum of the scores, in fixed-point units.
pub open spec fn sum_scores(s: Seq<FrameResult>) -> int
    decreases s.len(),
{
    if s.len() == 0 {
        0
    } else {
        sum_scores(s.drop_last()) + s.last().ssimulacra2
    }
}

/// Integer division rounded toward zero.
pub open spec fn div_toward_zero(a: int, n: int) -> int
    recommends
        n > 0,
{
    if a >= 0 {
        a / n
    } else {
        -((-a) / n)
    }
}

/// The arithmetic mean of the scores, rounded toward zero.
pub open spec fn mean_of(s: Seq<FrameResult>) -> int
    recommends
        s.len() > 0,
{
    div_toward_zero(sum_scores(s), s.len() as int)
}

proof fn lemma_sum_take_step(s: Seq<FrameResult>, i: int)
    requires
        0 <= i < s.len(),
    ensures
        sum_scores(s.take(i + 1)) == sum_scores(s.take(i)) + s[i].ssimulacra2,
{
    assert(s.take(i + 1).drop_last() =~= s.take(i));
    assert(s.take(i + 1).last() == s[i]);
}

/// The sum of scores that all lie between `lo` and `hi` lies between
/// `len * lo` and `len * hi`.
pub proof fn lemma_sum_bounds(s: Seq<FrameResult>, lo: int, hi: int)
    requires
        forall|i: int| 0 <= i < s.len() ==> lo <= (#[trigger] s[i]).ssimulacra2 <= hi,
    ensures
        s.len() * lo <= sum_scores(s) <= s.len() * hi,
    decreases s.len(),
{
    if s.len() == 0 {
    } else {
        let t = s.drop_last();
        assert(forall|i: int| 0 <= i < t.len() ==> #[trigger] t[i] == s[i]);
        lemma_sum_bounds(t, lo, hi);
        assert((s.len() - 1) * lo + lo == s.len() * lo) by (nonlinear_arith);
        assert((s.len() - 1) * hi + hi == s.len() * hi) by (nonlinear_arith);
    }
}

/// Division toward zero keeps a value between the bounds its numerator
/// was confined to.
pub proof fn lemma_div_toward_zero_bounds(a: int, n: int, lo: int, hi: int)
    requires
        n >= 1,
        n * lo <= a,
        a <= n * hi,
    ensures
        lo <= div_toward_zero(a, n) <= hi,
{
    if a >= 0 {
        assert(hi >= 0) by (nonlinear_arith)
            requires n >= 1 && n * hi >= 0;
        lemma_div_is_ordered(a, n * hi, n);
        lemma_div_multiples_vanish(hi, n);
        if lo <= 0 {
            lemma_div_pos_is_pos(a, n);
        } else {
            lemma_div_is_ordered(n * lo, a, n);
            lemma_div_multiples_vanish(lo, n);
        }
    } else {
        let m = -a;
        assert(lo < 0) by (nonlinear_arith)
            requires n >= 1 && n * lo < 0;
        assert(n * (-lo) == -(n * lo)) by (nonlinear_arith);
        lemma_div_is_ordered(m, n * (-lo), n);
        lemma_div_multiples_vanish(-lo, n);
        if hi >= 0 {
            lemma_div_pos_is_pos(m, n);
        } else {
            assert(n * (-hi) == -(n * hi)) by (nonlinear_arith);
            lemma_div_is_ordered(n * (-hi), m, n);
            lemma_div_multiples_vanish(-hi, n);
        }
    }
}

/// Computes minimum, maximum and mean over a non-empty record set; an
/// empty one yields `EmptyResultSet`, and nothing else does.
pub fn summarize(records: &Vec<FrameResult>) -> (r: Result<SummaryStatistics, BatchError>)
    ensures
        records@.len() == 0 <==> r == Err::<SummaryStatistics, BatchError>(
            BatchError::EmptyResultSet),
        match r {
            Ok(st) => {
                &&& st.count == records@.len()
                &&& exists|i: int| 0 <= i < records@.len()
                    && (#[trigger] records@[i]).ssimulacra2 == st.min
                &&& exists|i: int| 0 <= i < records@.len()
                    && (#[trigger] records@[i]).ssimulacra2 == st.max
                &&& forall|i: int| 0 <= i < records@.len()
                    ==> st.min <= (#[trigger] records@[i]).ssimulacra2 <= st.max
                &&& st.mean == mean_of(records@)
                &&& st.min <= st.mean <= st.max
            },
            Err(e) => e == BatchError::EmptyResultSet,
        },
{
    if records.len() == 0 {
        return Err(BatchError::EmptyResultSet);
    }
    let mut mn: i64 = records[0].ssimulacra2;
    let mut mx: i64 = records[0].ssimulacra2;
    let mut sum: i128 = 0;
    assert(records@.take(0).len() == 0);
    for i in 0..records.len()
        invariant
            records@.len() > 0,
            exists|k: int| 0 <= k < records@.len()
                && (#[trigger] records@[k]).ssimulacra2 == mn,
            exists|k: int| 0 <= k < records@.len()
                && (#[trigger] records@[k]).ssimulacra2 == mx,
            forall|k: int| 0 <= k < i ==> mn <= (#[trigger] records@[k]).ssimulacra2 <= mx,
            sum == sum_scores(records@.take(i as int)),
            (i as int) * (i64::MIN as int) <= sum <= (i as int) * (i64::MAX as int),
    {
        let x = records[i].ssimulacra2;
        if x < mn {
            mn = x;
        }
        if x > mx {
            mx = x;
        }
        proof {
            lemma_sum_take_step(records@, i as int);
        }
        sum = sum + (x as i128);
    }
    assert(records@.take(records@.len() as int) =~= records@);
    let n = records.len();
    proof {
        lemma_sum_bounds(records@, mn as int, mx as int);
        lemma_div_toward_zero_bounds(sum as int, n as int, mn as int, mx as int);
    }
    let mean_opt = sum.checked_div(n as i128);
    let mean = match mean_opt {
        Some(q) => q as i64,
        None => 0,
    };
    assert(mean == mean_of(records@));
    Ok(SummaryStatistics { min: mn, max: mx, mean, count: n })
}

} // verus!
