//! Facts about the stack kernel's clamped and triangular window sums.

use vstd::prelude::*;

use crate::model::{absi, clampi, in_sum, mirrored, out_sum, stack_sum, tri, usum, wfactor, wsum};

verus! {

pub proof fn lemma_usum_nonneg(l: Seq<u8>, i: int, d1: int, d2: int)
    ensures
        usum(l, i, d1, d2) >= 0,
    decreases d2 - d1,
{
    if d1 < d2 {
        lemma_usum_nonneg(l, i, d1 + 1, d2);
    }
}

pub proof fn lemma_usum_ubound(l: Seq<u8>, i: int, d1: int, d2: int)
    requires
        d1 <= d2,
    ensures
        usum(l, i, d1, d2) <= 255 * (d2 - d1),
    decreases d2 - d1,
{
    if d1 < d2 {
        lemma_usum_ubound(l, i, d1 + 1, d2);
    }
}

/// The clamped sum can grow at its trailing end.
pub proof fn lemma_usum_tail(l: Seq<u8>, i: int, d1: int, d2: int)
    requires
        d1 <= d2,
    ensures
        usum(l, i, d1, d2 + 1) == usum(l, i, d1, d2) + l[clampi(i + d2, l.len() as int)],
    decreases d2 - d1,
{
    if d1 < d2 {
        lemma_usum_tail(l, i, d1 + 1, d2);
    } else {
        assert(usum(l, i, d1, d2 + 1) == l[clampi(i + d1, l.len() as int)] + usum(
            l,
            i,
            d1 + 1,
            d2 + 1,
        ));
        assert(usum(l, i, d1 + 1, d2 + 1) == 0);
        assert(usum(l, i, d1, d2) == 0);
    }
}

/// Moving the anchor one step right while shifting the offset window one
/// step left reads the same samples.
pub proof fn lemma_usum_shift(l: Seq<u8>, i: int, d1: int, d2: int)
    ensures
        usum(l, i, d1, d2) == usum(l, i + 1, d1 - 1, d2 - 1),
    decreases d2 - d1,
{
    if d1 < d2 {
        lemma_usum_shift(l, i, d1 + 1, d2);
        assert(i + d1 == (i + 1) + (d1 - 1));
    }
}

/// A clamped sum whose offsets all land at or before the line's start reads
/// the first sample throughout.
pub proof fn lemma_usum_clamped_low(l: Seq<u8>, i: int, d1: int, d2: int)
    requires
        l.len() >= 1,
        d1 <= d2,
        i + d2 <= 1,
    ensures
        usum(l, i, d1, d2) == (d2 - d1) * l[0],
    decreases d2 - d1,
{
    if d1 < d2 {
        lemma_usum_clamped_low(l, i, d1 + 1, d2);
        assert(clampi(i + d1, l.len() as int) == 0);
        assert((d2 - d1) * l[0] == l[0] + (d2 - d1 - 1) * l[0]) by (nonlinear_arith);
    } else {
        assert((d2 - d1) * l[0] == 0) by (nonlinear_arith)
            requires
                d1 == d2,
        ;
    }
}

pub proof fn lemma_wsum_nonneg(l: Seq<u8>, r: int, i: int, d1: int, d2: int)
    requires
        -(r + 1) <= d1,
        d2 <= r + 2,
    ensures
        wsum(l, r, i, d1, d2) >= 0,
    decreases d2 - d1,
{
    if d1 < d2 {
        lemma_wsum_nonneg(l, r, i, d1 + 1, d2);
        vstd::arithmetic::mul::lemma_mul_nonnegative(
            r + 1 - absi(d1),
            l[clampi(i + d1, l.len() as int)] as int,
        );
    }
}

pub proof fn lemma_wsum_le_wfactor(l: Seq<u8>, r: int, i: int, d1: int, d2: int)
    requires
        -(r + 1) <= d1,
        d1 <= d2,
        d2 <= r + 2,
    ensures
        wsum(l, r, i, d1, d2) <= 255 * wfactor(r, d1, d2),
    decreases d2 - d1,
{
    if d1 < d2 {
        lemma_wsum_le_wfactor(l, r, i, d1 + 1, d2);
        let wt = r + 1 - absi(d1);
        let q = l[clampi(i + d1, l.len() as int)] as int;
        assert(wt * q <= 255 * wt) by (nonlinear_arith)
            requires
                0 <= wt,
                0 <= q <= 255,
        ;
    }
}

/// On a constant line the triangular sum is the constant times the total
/// weight.
pub proof fn lemma_wsum_const(l: Seq<u8>, r: int, i: int, d1: int, d2: int, v: u8)
    requires
        l.len() >= 1,
        d1 <= d2,
        forall|k: int| 0 <= k < l.len() ==> l[k] == v,
    ensures
        wsum(l, r, i, d1, d2) == v * wfactor(r, d1, d2),
    decreases d2 - d1,
{
    if d1 < d2 {
        lemma_wsum_const(l, r, i, d1 + 1, d2, v);
        let c = clampi(i + d1, l.len() as int);
        assert(0 <= c < l.len());
        assert(l[c] == v);
        let wt = r + 1 - absi(d1);
        assert(wt * (v as int) + (v as int) * wfactor(r, d1 + 1, d2) == (v as int) * (wt + wfactor(
            r,
            d1 + 1,
            d2,
        ))) by (nonlinear_arith);
    } else {
        assert((v as int) * wfactor(r, d1, d2) == 0) by (nonlinear_arith)
            requires
                wfactor(r, d1, d2) == 0,
        ;
    }
}

/// The triangular sum can grow at its trailing end.
pub proof fn lemma_wsum_tail(l: Seq<u8>, r: int, i: int, d1: int, d2: int)
    requires
        d1 <= d2,
    ensures
        wsum(l, r, i, d1, d2 + 1) == wsum(l, r, i, d1, d2) + (r + 1 - absi(d2)) * l[clampi(
            i + d2,
            l.len() as int,
        )],
    decreases d2 - d1,
{
    if d1 < d2 {
        lemma_wsum_tail(l, r, i, d1 + 1, d2);
    } else {
        assert(wsum(l, r, i, d1, d2 + 1) == (r + 1 - absi(d1)) * l[clampi(i + d1, l.len() as int)]
            + wsum(l, r, i, d1 + 1, d2 + 1));
        assert(wsum(l, r, i, d1 + 1, d2 + 1) == 0);
        assert(wsum(l, r, i, d1, d2) == 0);
    }
}

/// Adjacent triangular sums concatenate.
pub proof fn lemma_wsum_concat(l: Seq<u8>, r: int, i: int, d1: int, d2: int, d3: int)
    requires
        d1 <= d2 <= d3,
    ensures
        wsum(l, r, i, d1, d3) == wsum(l, r, i, d1, d2) + wsum(l, r, i, d2, d3),
    decreases d2 - d1,
{
    if d1 < d2 {
        lemma_wsum_concat(l, r, i, d1 + 1, d2, d3);
    }
}

/// The seed of the triangular sum: offsets at or before the line's start all
/// read the first sample, with weights `r + 1 + d` climbing like `tri`.
pub proof fn lemma_wsum_head_const(l: Seq<u8>, r: int, d: int)
    requires
        l.len() >= 1,
        r >= 0,
        -r <= d <= 1,
    ensures
        wsum(l, r, 0, d, 1) == l[0] * (tri(r + 1) - tri(r + d)),
    decreases 1 - d,
{
    if d < 1 {
        lemma_wsum_head_const(l, r, d + 1);
        assert(clampi(0 + d, l.len() as int) == 0);
        assert(absi(d) == -d);
        assert(tri(r + d + 1) == (r + d + 1) + tri(r + d));
        assert((l[0] as int) * (tri(r + 1) - tri(r + d + 1)) + (r + 1 + d) * (l[0] as int) == (
        l[0] as int) * (tri(r + 1) - tri(r + d))) by (nonlinear_arith)
            requires
                tri(r + d + 1) == (r + d + 1) + tri(r + d),
        ;
    } else {
        assert((l[0] as int) * (tri(r + 1) - tri(r + 1)) == 0) by (nonlinear_arith);
    }
}

pub proof fn lemma_tri_nonneg(k: int)
    ensures
        tri(k) >= 0,
    decreases k,
{
    if k > 0 {
        lemma_tri_nonneg(k - 1);
    }
}

pub proof fn lemma_tri_le_square(k: int)
    requires
        k >= 0,
    ensures
        tri(k) <= k * k,
    decreases k,
{
    if k > 0 {
        lemma_tri_le_square(k - 1);
        assert(k * k == (k - 1) * (k - 1) + 2 * k - 1) by (nonlinear_arith);
    }
}

/// Two consecutive triangular numbers tile a square.
pub proof fn lemma_tri_square(r: int)
    requires
        r >= 0,
    ensures
        tri(r + 1) + tri(r) == (r + 1) * (r + 1),
    decreases r,
{
    if r == 0 {
        assert(tri(1) == 1 + tri(0));
    } else {
        lemma_tri_square(r - 1);
        assert(tri(r + 1) == (r + 1) + tri(r));
        assert(tri(r) == r + tri(r - 1));
        assert((r + 1) * (r + 1) == r * r + 2 * r + 1) by (nonlinear_arith);
    }
}

pub proof fn lemma_wfactor_high(r: int, d: int)
    requires
        0 <= d <= r + 1,
    ensures
        wfactor(r, d, r + 1) == tri(r + 1 - d),
    decreases r + 1 - d,
{
    if d < r + 1 {
        lemma_wfactor_high(r, d + 1);
        assert(absi(d) == d);
        assert(tri(r + 1 - d) == (r + 1 - d) + tri(r - d));
    }
}

pub proof fn lemma_wfactor_low(r: int, d: int)
    requires
        -r <= d <= 0,
    ensures
        wfactor(r, d, r + 1) == tri(r + 1) + tri(r) - tri(r + d),
    decreases -d,
{
    if d == 0 {
        lemma_wfactor_high(r, 0);
    } else {
        lemma_wfactor_low(r, d + 1);
        assert(absi(d) == -d);
        assert(tri(r + d + 1) == (r + d + 1) + tri(r + d));
    }
}

/// The triangular weights over the full window total `(r + 1) * (r + 1)`.
pub proof fn lemma_wfactor_total(r: int)
    requires
        r >= 0,
    ensures
        wfactor(r, -r, r + 1) == (r + 1) * (r + 1),
{
    lemma_wfactor_low(r, -r);
    lemma_tri_square(r);
    assert(tri(0) == 0);
}

/// The full triangular window sum is a sum of at most `(r + 1)^2` bytes.
pub proof fn lemma_stack_sum_bounds(l: Seq<u8>, r: int, i: int)
    requires
        r >= 0,
        l.len() >= 1,
    ensures
        0 <= stack_sum(l, r, i),
        stack_sum(l, r, i) <= 255 * ((r + 1) * (r + 1)),
{
    lemma_wsum_nonneg(l, r, i, -r, r + 1);
    lemma_wsum_le_wfactor(l, r, i, -r, r + 1);
    lemma_wfactor_total(r);
}

/// Sliding step, leading half of the window: each weight there grows by one,
/// so the difference is the plain sum of the leading samples.
proof fn lemma_slide_high(l: Seq<u8>, r: int, i: int, d1: int)
    requires
        0 <= d1 <= r + 1,
    ensures
        wsum(l, r, i + 1, d1, r + 1) == wsum(l, r, i, d1 + 1, r + 1) + usum(l, i + 1, d1, r + 1),
    decreases r + 1 - d1,
{
    let n = l.len() as int;
    if d1 == r + 1 {
        assert(wsum(l, r, i + 1, d1, r + 1) == 0);
        assert(wsum(l, r, i, d1 + 1, r + 1) == 0);
        assert(usum(l, i + 1, d1, r + 1) == 0);
    } else if d1 == r {
        let q = l[clampi(i + 1 + d1, n)] as int;
        assert(wsum(l, r, i + 1, d1, r + 1) == (r + 1 - absi(d1)) * l[clampi(i + 1 + d1, n)]
            + wsum(l, r, i + 1, d1 + 1, r + 1));
        assert(wsum(l, r, i + 1, d1 + 1, r + 1) == 0);
        assert(wsum(l, r, i, d1 + 1, r + 1) == 0);
        assert(usum(l, i + 1, d1, r + 1) == q + usum(l, i + 1, d1 + 1, r + 1));
        assert(usum(l, i + 1, d1 + 1, r + 1) == 0);
        assert(absi(d1) == d1);
        assert(1 * q == q) by (nonlinear_arith);
    } else {
        lemma_slide_high(l, r, i, d1 + 1);
        assert(absi(d1) == d1 && absi(d1 + 1) == d1 + 1);
        assert(i + 1 + d1 == i + (d1 + 1));
        let q = l[clampi(i + 1 + d1, n)] as int;
        assert(wsum(l, r, i + 1, d1, r + 1) == (r + 1 - d1) * q + wsum(l, r, i + 1, d1 + 1, r + 1));
        assert(wsum(l, r, i, d1 + 1, r + 1) == (r - d1) * l[clampi(i + (d1 + 1), n)] + wsum(
            l,
            r,
            i,
            d1 + 2,
            r + 1,
        ));
        assert(usum(l, i + 1, d1, r + 1) == q + usum(l, i + 1, d1 + 1, r + 1));
        assert((r + 1 - d1) * q == (r - d1) * q + q) by (nonlinear_arith);
    }
}

/// Sliding step, trailing half of the window: each weight there shrinks by
/// one, so the trailing samples are subtracted.
proof fn lemma_slide_low(l: Seq<u8>, r: int, i: int, d1: int)
    requires
        -(r + 1) <= d1 <= 0,
    ensures
        wsum(l, r, i + 1, d1, r + 1) == wsum(l, r, i, d1 + 1, r + 1) + usum(l, i + 1, 0, r + 1)
            - usum(l, i + 1, d1, 0),
    decreases -d1,
{
    let n = l.len() as int;
    if d1 == 0 {
        lemma_slide_high(l, r, i, 0);
        assert(usum(l, i + 1, 0, 0) == 0);
    } else {
        lemma_slide_low(l, r, i, d1 + 1);
        assert(absi(d1) == -d1 && absi(d1 + 1) == -(d1 + 1));
        assert(i + 1 + d1 == i + (d1 + 1));
        let q = l[clampi(i + 1 + d1, n)] as int;
        assert(wsum(l, r, i + 1, d1, r + 1) == (r + 1 + d1) * q + wsum(l, r, i + 1, d1 + 1, r + 1));
        assert(wsum(l, r, i, d1 + 1, r + 1) == (r + 2 + d1) * l[clampi(i + (d1 + 1), n)] + wsum(
            l,
            r,
            i,
            d1 + 2,
            r + 1,
        ));
        assert(usum(l, i + 1, d1, 0) == q + usum(l, i + 1, d1 + 1, 0));
        assert((r + 1 + d1) * q == (r + 2 + d1) * q - q) by (nonlinear_arith);
    }
}

/// Clamping commutes with reflecting the line.
proof fn lemma_clampi_mirror(x: int, n: int)
    requires
        n >= 1,
    ensures
        clampi(n - 1 - x, n) == n - 1 - clampi(x, n),
{
}

/// On a palindromic line, the triangular sum anchored at the mirrored
/// position runs over the reflected offset window.
proof fn lemma_wsum_mirror_gen(l: Seq<u8>, r: int, i: int, d1: int, d2: int)
    requires
        l.len() >= 1,
        d1 <= d2,
        mirrored(l),
    ensures
        wsum(l, r, l.len() - 1 - i, d1, d2) == wsum(l, r, i, 1 - d2, 1 - d1),
    decreases d2 - d1,
{
    let n = l.len() as int;
    if d1 < d2 {
        lemma_wsum_mirror_gen(l, r, i, d1 + 1, d2);
        lemma_wsum_tail(l, r, i, 1 - d2, -d1);
        lemma_clampi_mirror(i - d1, n);
        assert(n - 1 - i + d1 == n - 1 - (i - d1));
        assert(l[clampi(n - 1 - (i - d1), n)] == l[n - 1 - clampi(i - d1, n)]);
        assert(l[n - 1 - clampi(i - d1, n)] == l[clampi(i - d1, n)]);
        assert(absi(-d1) == absi(d1));
        assert(i + (-d1) == i - d1);
    }
}

/// Law kernel, one line: a palindromic line's triangular window sum is the
/// same at a position and at its mirror image.
pub proof fn lemma_stack_sum_mirror(l: Seq<u8>, r: int, i: int)
    requires
        l.len() >= 1,
        r >= 0,
        mirrored(l),
    ensures
        stack_sum(l, r, l.len() - 1 - i) == stack_sum(l, r, i),
{
    lemma_wsum_mirror_gen(l, r, i, -r, r + 1);
    assert(1 - (r + 1) == -r);
}

/// One sliding step of the whole triangular window: the new sum is the old
/// one plus the leading half's samples minus the trailing half's.
pub proof fn lemma_stack_slide(l: Seq<u8>, r: int, i: int)
    requires
        r >= 0,
    ensures
        stack_sum(l, r, i + 1) == stack_sum(l, r, i) + in_sum(l, r, i + 1) - out_sum(l, r, i + 1),
{
    let n = l.len() as int;
    lemma_slide_low(l, r, i, -(r + 1));
    assert(wsum(l, r, i + 1, -(r + 1), r + 1) == (r + 1 - absi(-(r + 1))) * l[clampi(
        i + 1 + (-(r + 1)),
        n,
    )] + wsum(l, r, i + 1, -(r + 1) + 1, r + 1));
    assert(r + 1 - absi(-(r + 1)) == 0);
    assert(0 * l[clampi(i + 1 + (-(r + 1)), n)] == 0);
    assert(-(r + 1) + 1 == -r);
}

} // verus!
