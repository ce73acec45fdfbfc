//! Mathematical model of the two kernels.
//!
//! A pass over one line (a row or a column of the flat plane) is modelled by
//! `line_of`, which picks `n` samples starting at `base` with a fixed
//! `stride`. The box kernel averages a truncated window; the stack kernel
//! takes a triangular weighted sum with edge samples clamped and scales it by
//! a fixed-point reciprocal.

use vstd::prelude::*;

verus! {

/// The samples of one line of the flat plane: element `i` lives at flat
/// index `base + i * stride`. Rows have stride 1, columns stride `width`.
pub open spec fn line_of(s: Seq<u8>, base: int, stride: int, n: int) -> Seq<u8> {
    Seq::new(n as nat, |i: int| s[base + i * stride])
}

/// Row `h` of a plane that is `width` samples wide.
pub open spec fn row_of(s: Seq<u8>, width: int, h: int) -> Seq<u8> {
    line_of(s, h * width, 1, width)
}

/// Column `w` of a plane that is `width` samples wide and `height` tall.
pub open spec fn col_of(s: Seq<u8>, width: int, height: int, w: int) -> Seq<u8> {
    line_of(s, w, width, height)
}

/// Sum of the samples `l[lo], ..., l[hi - 1]`.
pub open spec fn sum_seg(l: Seq<u8>, lo: int, hi: int) -> int
    decreases hi - lo,
{
    if lo >= hi {
        0
    } else {
        l[lo] + sum_seg(l, lo + 1, hi)
    }
}

/// First sample index of the truncated box window centred at `i`.
pub open spec fn win_lo(i: int, r: int) -> int {
    if i - r >= 0 {
        i - r
    } else {
        0
    }
}

/// Last sample index of the truncated box window centred at `i` in a line of
/// `n` samples.
pub open spec fn win_hi(i: int, r: int, n: int) -> int {
    if i + r <= n - 1 {
        i + r
    } else {
        n - 1
    }
}

/// The box-blurred sample at position `i` of line `l`: the integer-truncated
/// mean of the in-bounds window `[win_lo, win_hi]`. The window never pads or
/// wraps; near the ends it simply holds fewer samples.
pub open spec fn box_px(l: Seq<u8>, r: int, i: int) -> u8 {
    let n: int = l.len() as int;
    let lo: int = win_lo(i, r);
    let hi: int = win_hi(i, r, n);
    (sum_seg(l, lo, hi + 1) / (hi + 1 - lo)) as u8
}

/// One horizontal box pass over the first `width * height` samples.
pub open spec fn box_h_pass(s: Seq<u8>, width: int, height: int, r: int) -> Seq<u8> {
    Seq::new((width * height) as nat, |k: int| box_px(row_of(s, width, k / width), r, k % width))
}

/// One vertical box pass over the first `width * height` samples.
pub open spec fn box_v_pass(s: Seq<u8>, width: int, height: int, r: int) -> Seq<u8> {
    Seq::new(
        (width * height) as nat,
        |k: int| box_px(col_of(s, width, height, k % width), r, k / width),
    )
}

/// The whole box blur: horizontal pass, then vertical pass on its result.
pub open spec fn box_blur_spec(s: Seq<u8>, width: int, height: int, r: int) -> Seq<u8> {
    box_v_pass(box_h_pass(s, width, height, r), width, height, r)
}

/// A line that reads the same from both ends.
pub open spec fn mirrored(l: Seq<u8>) -> bool {
    forall|k: int| 0 <= k < l.len() ==> #[trigger] l[k] == l[l.len() - 1 - k]
}

/// Every row of the plane's used prefix is a palindrome.
pub open spec fn hsym(s: Seq<u8>, width: int, height: int) -> bool {
    forall|h: int| 0 <= h < height ==> mirrored(#[trigger] row_of(s, width, h))
}

/// Every column of the plane's used prefix is a palindrome.
pub open spec fn vsym(s: Seq<u8>, width: int, height: int) -> bool {
    forall|w: int| 0 <= w < width ==> mirrored(#[trigger] col_of(s, width, height, w))
}

/// An index clamped into `[0, n - 1]`: the stack kernel replicates the
/// nearest edge sample in place of out-of-range ones.
pub open spec fn clampi(i: int, n: int) -> int {
    if i < 0 {
        0
    } else if i > n - 1 {
        n - 1
    } else {
        i
    }
}

/// Absolute value.
pub open spec fn absi(d: int) -> int {
    if d < 0 {
        -d
    } else {
        d
    }
}

/// Sum of the clamp-sampled values at offsets `d1 <= d < d2` from `i`.
pub open spec fn usum(l: Seq<u8>, i: int, d1: int, d2: int) -> int
    decreases d2 - d1,
{
    if d1 >= d2 {
        0
    } else {
        l[clampi(i + d1, l.len() as int)] + usum(l, i, d1 + 1, d2)
    }
}

/// Triangular weighted sum: the clamp-sampled value at offset `d` from `i`
/// counts with weight `r + 1 - |d|`, for `d1 <= d < d2`.
pub open spec fn wsum(l: Seq<u8>, r: int, i: int, d1: int, d2: int) -> int
    decreases d2 - d1,
{
    if d1 >= d2 {
        0
    } else {
        (r + 1 - absi(d1)) * l[clampi(i + d1, l.len() as int)] + wsum(l, r, i, d1 + 1, d2)
    }
}

/// The full triangular window sum around position `i`.
pub open spec fn stack_sum(l: Seq<u8>, r: int, i: int) -> int {
    wsum(l, r, i, -r, r + 1)
}

/// Sum of the samples on the window's leading half (offsets `0..=r`).
pub open spec fn in_sum(l: Seq<u8>, r: int, i: int) -> int {
    usum(l, i, 0, r + 1)
}

/// Sum of the samples on the window's trailing half (offsets `-(r+1)..=-1`).
pub open spec fn out_sum(l: Seq<u8>, r: int, i: int) -> int {
    usum(l, i, -(r + 1), 0)
}

/// `1 + 2 + ... + k`.
pub open spec fn tri(k: int) -> int
    decreases k,
{
    if k <= 0 {
        0
    } else {
        k + tri(k - 1)
    }
}

/// Sum of the triangular weights `r + 1 - |d|` over `d1 <= d < d2`.
pub open spec fn wfactor(r: int, d1: int, d2: int) -> int
    decreases d2 - d1,
{
    if d1 >= d2 {
        0
    } else {
        (r + 1 - absi(d1)) + wfactor(r, d1 + 1, d2)
    }
}

/// The stack-blurred sample at position `i` of line `l`: the triangular
/// window sum scaled by the fixed-point reciprocal of `(r + 1) * (r + 1)`.
pub open spec fn stack_px(l: Seq<u8>, r: int, i: int) -> u8 {
    ((stack_sum(l, r, i) * crate::tables::mul_entry(r)) / crate::tables::pow2s(
        crate::tables::shg_entry(r),
    )) as u8
}

/// One horizontal stack pass over the first `width * height` samples.
pub open spec fn stack_h_pass(s: Seq<u8>, width: int, height: int, r: int) -> Seq<u8> {
    Seq::new((width * height) as nat, |k: int| stack_px(row_of(s, width, k / width), r, k % width))
}

/// One vertical stack pass over the first `width * height` samples.
pub open spec fn stack_v_pass(s: Seq<u8>, width: int, height: int, r: int) -> Seq<u8> {
    Seq::new(
        (width * height) as nat,
        |k: int| stack_px(col_of(s, width, height, k % width), r, k / width),
    )
}

/// The whole stack blur: horizontal pass, then vertical pass on its result.
pub open spec fn stack_blur_spec(s: Seq<u8>, width: int, height: int, r: int) -> Seq<u8> {
    stack_v_pass(stack_h_pass(s, width, height, r), width, height, r)
}

} // verus!
