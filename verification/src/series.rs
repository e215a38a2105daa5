//! Trial series: the durations of repeated measurements, and their mean.

use vstd::prelude::*;

verus! {

/// The sum of a series of durations.
pub open spec fn series_sum(ts: Seq<u64>) -> nat
    decreases ts.len(),
{
    if ts.len() == 0 {
        0
    } else {
        series_sum(ts.drop_last()) + ts.last() as nat
    }
}

/// The arithmetic mean of a series of durations; the fractional part is
/// dropped. The mean of the empty series is left at zero.
pub open spec fn series_mean(ts: Seq<u64>) -> nat {
    if ts.len() == 0 {
        0
    } else {
        series_sum(ts) / ts.len()
    }
}

/// The sum of a series lies between its length times a lower bound of its
/// members and its length times an upper bound of them.
pub proof fn lemma_sum_bounds(ts: Seq<u64>, lo: nat, hi: nat)
    requires
        forall|i: int| 0 <= i < ts.len() ==> lo <= #[trigger] ts[i] <= hi,
    ensures
        lo * ts.len() <= series_sum(ts) <= hi * ts.len(),
    decreases ts.len(),
{
    if ts.len() > 0 {
        let front = ts.drop_last();
        assert forall|i: int| 0 <= i < front.len() implies lo <= #[trigger] front[i] <= hi by {
            assert(front[i] == ts[i]);
        }
        lemma_sum_bounds(front, lo, hi);
        assert(lo * ts.len() == lo * front.len() + lo) by (nonlinear_arith)
            requires
                ts.len() == front.len() + 1,
        ;
        assert(hi * ts.len() == hi * front.len() + hi) by (nonlinear_arith)
            requires
                ts.len() == front.len() + 1,
        ;
    } else {
        assert(lo * ts.len() == 0 && hi * ts.len() == 0) by (nonlinear_arith)
            requires
                ts.len() == 0,
        ;
    }
}

/// The mean of a series that is not empty lies between a lower bound and an
/// upper bound of its members.
pub proof fn lemma_mean_bounds(ts: Seq<u64>, lo: nat, hi: nat)
    requires
        ts.len() > 0,
        forall|i: int| 0 <= i < ts.len() ==> lo <= #[trigger] ts[i] <= hi,
    ensures
        lo <= series_mean(ts) <= hi,
{
    lemma_sum_bounds(ts, lo, hi);
    let total = series_sum(ts);
    let count = ts.len();
    assert(lo <= total / count <= hi) by (nonlinear_arith)
        requires
            count > 0,
            lo * count <= total <= hi * count,
    ;
}

/// The mean drops the fraction: the sum is at least the mean times the
/// length, and less than the next number times the length.
pub proof fn lemma_mean_truncates(ts: Seq<u64>)
    requires
        ts.len() > 0,
    ensures
        series_mean(ts) * ts.len() <= series_sum(ts) < (series_mean(ts) + 1) * ts.len(),
{
    let total = series_sum(ts) as int;
    let count = ts.len() as int;
    assert((total / count) * count <= total < (total / count + 1) * count) by (nonlinear_arith)
        requires
            count > 0,
            total >= 0,
    ;
}

/// The mean of a series whose members all equal `d` is `d`.
pub proof fn lemma_mean_of_constant(ts: Seq<u64>, d: u64)
    requires
        ts.len() > 0,
        forall|i: int| 0 <= i < ts.len() ==> #[trigger] ts[i] == d,
    ensures
        series_mean(ts) == d,
{
    lemma_mean_bounds(ts, d as nat, d as nat);
}

/// The arithmetic mean of a series of durations, the fractional part
/// dropped. The series must not be empty.
pub fn avgu(ts: &[u64]) -> (mean: u64)
    requires
        ts@.len() > 0,
    ensures
        mean as nat == series_mean(ts@),
{
    let count: usize = ts.len();
    let mut total: u128 = 0;
    let mut i: usize = 0;
    while i < count
        invariant
            count == ts@.len(),
            i <= count,
            total as nat == series_sum(ts@.take(i as int)),
            total <= i * 0xffff_ffff_ffff_ffff,
        decreases count - i,
    {
        proof {
            let next = ts@.take(i + 1);
            assert(next.drop_last() =~= ts@.take(i as int));
            assert(next.last() == ts@[i as int]);
            assert((i + 1) * 0xffff_ffff_ffff_ffff == i * 0xffff_ffff_ffff_ffff
                + 0xffff_ffff_ffff_ffff) by (nonlinear_arith);
            assert(count * 0xffff_ffff_ffff_ffff <= 0xffff_ffff_ffff_ffff * 0xffff_ffff_ffff_ffff)
                by (nonlinear_arith)
                requires
                    count <= 0xffff_ffff_ffff_ffff,
            ;
            assert((i + 1) * 0xffff_ffff_ffff_ffff <= count * 0xffff_ffff_ffff_ffff)
                by (nonlinear_arith)
                requires
                    i + 1 <= count,
            ;
        }
        total = total + ts[i] as u128;
        i = i + 1;
    }
    proof {
        assert(ts@.take(count as int) =~= ts@);
        lemma_mean_bounds(ts@, 0, 0xffff_ffff_ffff_ffff);
    }
    let mean: u128 = total / (count as u128);
    mean as u64
}

} // verus!
