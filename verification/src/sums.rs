//! Facts about `sum_seg` that the sliding-window loops rest on.

use vstd::prelude::*;

use crate::model::{mirrored, sum_seg};

verus! {

pub proof fn lemma_sum_seg_nonneg(l: Seq<u8>, lo: int, hi: int)
    ensures
        sum_seg(l, lo, hi) >= 0,
    decreases hi - lo,
{
    if lo < hi {
        lemma_sum_seg_nonneg(l, lo + 1, hi);
    }
}

pub proof fn lemma_sum_seg_ubound(l: Seq<u8>, lo: int, hi: int)
    requires
        lo <= hi,
    ensures
        sum_seg(l, lo, hi) <= 255 * (hi - lo),
    decreases hi - lo,
{
    if lo < hi {
        lemma_sum_seg_ubound(l, lo + 1, hi);
    }
}

/// A window can grow at its trailing end: the sum gains the new last sample.
pub proof fn lemma_sum_seg_tail(l: Seq<u8>, lo: int, hi: int)
    requires
        lo <= hi,
    ensures
        sum_seg(l, lo, hi + 1) == sum_seg(l, lo, hi) + l[hi],
    decreases hi - lo,
{
    if lo < hi {
        lemma_sum_seg_tail(l, lo + 1, hi);
        assert(sum_seg(l, lo, hi + 1) == l[lo] + sum_seg(l, lo + 1, hi + 1));
        assert(sum_seg(l, lo, hi) == l[lo] + sum_seg(l, lo + 1, hi));
    } else {
        assert(sum_seg(l, lo, hi + 1) == l[lo] + sum_seg(l, lo + 1, hi + 1));
        assert(sum_seg(l, lo + 1, hi + 1) == 0);
        assert(sum_seg(l, lo, hi) == 0);
    }
}

/// Mirrored segments of a palindromic line have equal sums.
pub proof fn lemma_sum_seg_mirror(l: Seq<u8>, lo: int, hi: int)
    requires
        0 <= lo <= hi <= l.len(),
        mirrored(l),
    ensures
        sum_seg(l, lo, hi) == sum_seg(l, l.len() - hi, l.len() - lo),
    decreases hi - lo,
{
    let n = l.len() as int;
    if lo < hi {
        lemma_sum_seg_mirror(l, lo + 1, hi);
        lemma_sum_seg_tail(l, n - hi, n - lo - 1);
        assert(l[lo] == l[n - 1 - lo]);
    }
}

/// A segment of equal samples sums to its length times the sample.
pub proof fn lemma_sum_seg_const(l: Seq<u8>, lo: int, hi: int, v: u8)
    requires
        lo <= hi,
        forall|k: int| lo <= k < hi ==> l[k] == v,
    ensures
        sum_seg(l, lo, hi) == (hi - lo) * (v as int),
    decreases hi - lo,
{
    if lo < hi {
        lemma_sum_seg_const(l, lo + 1, hi, v);
        assert((hi - lo) * (v as int) == (v as int) + (hi - lo - 1) * (v as int))
            by (nonlinear_arith);
    } else {
        assert((hi - lo) * (v as int) == 0) by (nonlinear_arith)
            requires
                hi == lo,
        ;
    }
}

/// Multiplying both sides of `a <= b` by a non-negative factor keeps order.
pub proof fn lemma_mul_le(a: int, b: int, c: int)
    requires
        a <= b,
        0 <= c,
    ensures
        a * c <= b * c,
{
    vstd::arithmetic::mul::lemma_mul_inequality(a, b, c);
}

} // verus!
