//! Laws of the two kernels, stated and proved over the mathematical model.

use vstd::prelude::*;

use crate::model::{
    box_blur_spec, box_h_pass, box_px, box_v_pass, col_of, hsym, mirrored, row_of,
    stack_blur_spec, stack_h_pass, stack_px, stack_sum, stack_v_pass, sum_seg, vsym, win_hi,
    win_lo,
};
use crate::stack_sums::{lemma_stack_sum_mirror, lemma_wfactor_total, lemma_wsum_const};
use crate::sums::{
    lemma_mul_le, lemma_sum_seg_const, lemma_sum_seg_mirror, lemma_sum_seg_nonneg,
    lemma_sum_seg_ubound,
};
use crate::tables::{lemma_table_ok, mul_entry, pow2s, shg_entry};

verus! {

/// A radius-zero box window holds exactly one sample.
proof fn lemma_box_px_zero(l: Seq<u8>, i: int)
    requires
        0 <= i < l.len(),
    ensures
        box_px(l, 0, i) == l[i],
{
    assert(win_lo(i, 0) == i);
    assert(win_hi(i, 0, l.len() as int) == i);
    assert(sum_seg(l, i, i + 1) == l[i] + sum_seg(l, i + 1, i + 1));
    assert(sum_seg(l, i + 1, i + 1) == 0);
    assert((l[i] as int) / 1 == l[i] as int);
}

/// Law: `box_blur` with radius zero leaves every sample of the plane
/// unchanged — each averaging window is a single pixel.
pub proof fn lemma_box_blur_identity(s: Seq<u8>, width: int, height: int)
    requires
        1 <= width,
        1 <= height,
        width * height <= s.len(),
    ensures
        forall|k: int| 0 <= k < width * height ==> box_blur_spec(s, width, height, 0)[k] == s[k],
{
    let hp = box_h_pass(s, width, height, 0);
    assert forall|k: int| 0 <= k < width * height implies hp[k] == s[k] by {
        vstd::arithmetic::div_mod::lemma_fundamental_div_mod(k, width);
        vstd::arithmetic::div_mod::lemma_mod_bound(k, width);
        vstd::arithmetic::mul::lemma_mul_is_commutative(width, k / width);
        let h = k / width;
        let i = k % width;
        let l = row_of(s, width, h);
        assert(h * width + i == k);
        lemma_box_px_zero(l, i);
        assert(l[i] == s[h * width + i * 1]);
    }
    let vp = box_v_pass(hp, width, height, 0);
    assert forall|k: int| 0 <= k < width * height implies vp[k] == hp[k] by {
        vstd::arithmetic::div_mod::lemma_fundamental_div_mod(k, width);
        vstd::arithmetic::div_mod::lemma_mod_bound(k, width);
        vstd::arithmetic::mul::lemma_mul_is_commutative(width, k / width);
        vstd::arithmetic::mul::lemma_mul_is_commutative(width, height);
        vstd::arithmetic::div_mod::lemma_multiply_divide_lt(k, width, height);
        let w = k % width;
        let i = k / width;
        let l = col_of(hp, width, height, w);
        assert(0 <= i < height);
        lemma_box_px_zero(l, i);
        assert(l[i] == hp[w + i * width]);
        assert(w + i * width == k);
    }
}

/// All samples a row of the plane's used prefix holds are `v`.
proof fn lemma_row_const(s: Seq<u8>, width: int, height: int, h: int, v: u8)
    requires
        1 <= width,
        1 <= height,
        0 <= h < height,
        width * height <= s.len(),
        forall|k: int| 0 <= k < width * height ==> s[k] == v,
    ensures
        forall|i: int| 0 <= i < width ==> row_of(s, width, h)[i] == v,
{
    assert forall|i: int| 0 <= i < width implies row_of(s, width, h)[i] == v by {
        lemma_mul_le(h, height - 1, width);
        vstd::arithmetic::mul::lemma_mul_is_commutative(width, height);
        assert((height - 1) * width + width == height * width) by (nonlinear_arith);
        assert(0 <= h * width + i * 1 < width * height);
        assert(row_of(s, width, h)[i] == s[h * width + i * 1]);
    }
}

/// All samples a column of the plane's used prefix holds are `v`.
proof fn lemma_col_const(s: Seq<u8>, width: int, height: int, w: int, v: u8)
    requires
        1 <= width,
        1 <= height,
        0 <= w < width,
        width * height <= s.len(),
        forall|k: int| 0 <= k < width * height ==> s[k] == v,
    ensures
        forall|i: int| 0 <= i < height ==> col_of(s, width, height, w)[i] == v,
{
    assert forall|i: int| 0 <= i < height implies col_of(s, width, height, w)[i] == v by {
        lemma_mul_le(i, height - 1, width);
        vstd::arithmetic::mul::lemma_mul_is_commutative(width, height);
        assert((height - 1) * width + width == height * width) by (nonlinear_arith);
        assert(0 <= w + i * width < width * height);
        assert(col_of(s, width, height, w)[i] == s[w + i * width]);
    }
}

/// The truncated mean of a constant window is that constant.
proof fn lemma_box_px_const(l: Seq<u8>, r: int, i: int, v: u8)
    requires
        0 <= i < l.len(),
        r >= 0,
        forall|k: int| 0 <= k < l.len() ==> l[k] == v,
    ensures
        box_px(l, r, i) == v,
{
    let n = l.len() as int;
    let lo = win_lo(i, r);
    let hi = win_hi(i, r, n);
    assert(0 <= lo <= i && i <= hi < n);
    lemma_sum_seg_const(l, lo, hi + 1, v);
    vstd::arithmetic::div_mod::lemma_div_multiples_vanish(v as int, hi + 1 - lo);
}

/// Law: `box_blur` maps a constant plane to itself for any radius its
/// preconditions admit — the truncated edge windows always average samples
/// that are all equal.
pub proof fn lemma_box_blur_constant(s: Seq<u8>, width: int, height: int, r: int, v: u8)
    requires
        1 <= width,
        1 <= height,
        0 <= r,
        2 * r < width,
        2 * r < height,
        width * height <= s.len(),
        forall|k: int| 0 <= k < width * height ==> s[k] == v,
    ensures
        forall|k: int| 0 <= k < width * height ==> box_blur_spec(s, width, height, r)[k] == v,
{
    let hp = box_h_pass(s, width, height, r);
    assert forall|k: int| 0 <= k < width * height implies hp[k] == v by {
        vstd::arithmetic::div_mod::lemma_fundamental_div_mod(k, width);
        vstd::arithmetic::div_mod::lemma_mod_bound(k, width);
        vstd::arithmetic::mul::lemma_mul_is_commutative(width, height);
        vstd::arithmetic::div_mod::lemma_multiply_divide_lt(k, width, height);
        lemma_row_const(s, width, height, k / width, v);
        lemma_box_px_const(row_of(s, width, k / width), r, k % width, v);
    }
    let vp = box_v_pass(hp, width, height, r);
    assert forall|k: int| 0 <= k < width * height implies vp[k] == v by {
        vstd::arithmetic::div_mod::lemma_fundamental_div_mod(k, width);
        vstd::arithmetic::div_mod::lemma_mod_bound(k, width);
        vstd::arithmetic::mul::lemma_mul_is_commutative(width, height);
        vstd::arithmetic::div_mod::lemma_multiply_divide_lt(k, width, height);
        lemma_col_const(hp, width, height, k % width, v);
        lemma_box_px_const(col_of(hp, width, height, k % width), r, k / width, v);
    }
}

/// Value of the horizontal box pass at row `h`, column `w`.
proof fn lemma_box_hp_at(s: Seq<u8>, width: int, height: int, r: int, h: int, w: int)
    requires
        1 <= width,
        1 <= height,
        0 <= h < height,
        0 <= w < width,
    ensures
        0 <= h * width + w < width * height,
        box_h_pass(s, width, height, r)[h * width + w] == box_px(row_of(s, width, h), r, w),
{
    lemma_mul_le(h, height - 1, width);
    vstd::arithmetic::mul::lemma_mul_is_commutative(width, height);
    assert((height - 1) * width + width == height * width) by (nonlinear_arith);
    vstd::arithmetic::mul::lemma_mul_nonnegative(h, width);
    vstd::arithmetic::div_mod::lemma_fundamental_div_mod_converse(h * width + w, width, h, w);
}

/// Value of the vertical box pass at row `h`, column `w`.
proof fn lemma_box_vp_at(inp: Seq<u8>, width: int, height: int, r: int, h: int, w: int)
    requires
        1 <= width,
        1 <= height,
        0 <= h < height,
        0 <= w < width,
    ensures
        0 <= h * width + w < width * height,
        box_v_pass(inp, width, height, r)[h * width + w] == box_px(
            col_of(inp, width, height, w),
            r,
            h,
        ),
{
    lemma_mul_le(h, height - 1, width);
    vstd::arithmetic::mul::lemma_mul_is_commutative(width, height);
    assert((height - 1) * width + width == height * width) by (nonlinear_arith);
    vstd::arithmetic::mul::lemma_mul_nonnegative(h, width);
    vstd::arithmetic::div_mod::lemma_fundamental_div_mod_converse(h * width + w, width, h, w);
}

/// Value of the horizontal stack pass at row `h`, column `w`.
proof fn lemma_stack_hp_at(s: Seq<u8>, width: int, height: int, r: int, h: int, w: int)
    requires
        1 <= width,
        1 <= height,
        0 <= h < height,
        0 <= w < width,
    ensures
        0 <= h * width + w < width * height,
        stack_h_pass(s, width, height, r)[h * width + w] == stack_px(row_of(s, width, h), r, w),
{
    lemma_mul_le(h, height - 1, width);
    vstd::arithmetic::mul::lemma_mul_is_commutative(width, height);
    assert((height - 1) * width + width == height * width) by (nonlinear_arith);
    vstd::arithmetic::mul::lemma_mul_nonnegative(h, width);
    vstd::arithmetic::div_mod::lemma_fundamental_div_mod_converse(h * width + w, width, h, w);
}

/// Value of the vertical stack pass at row `h`, column `w`.
proof fn lemma_stack_vp_at(inp: Seq<u8>, width: int, height: int, r: int, h: int, w: int)
    requires
        1 <= width,
        1 <= height,
        0 <= h < height,
        0 <= w < width,
    ensures
        0 <= h * width + w < width * height,
        stack_v_pass(inp, width, height, r)[h * width + w] == stack_px(
            col_of(inp, width, height, w),
            r,
            h,
        ),
{
    lemma_mul_le(h, height - 1, width);
    vstd::arithmetic::mul::lemma_mul_is_commutative(width, height);
    assert((height - 1) * width + width == height * width) by (nonlinear_arith);
    vstd::arithmetic::mul::lemma_mul_nonnegative(h, width);
    vstd::arithmetic::div_mod::lemma_fundamental_div_mod_converse(h * width + w, width, h, w);
}

/// On a palindromic line, the box output at a position equals the output at
/// its mirror image.
proof fn lemma_box_px_mirror(l: Seq<u8>, r: int, i: int)
    requires
        0 <= i < l.len(),
        r >= 0,
        mirrored(l),
    ensures
        box_px(l, r, l.len() - 1 - i) == box_px(l, r, i),
{
    let n = l.len() as int;
    let lo = win_lo(i, r);
    let hi = win_hi(i, r, n);
    assert(win_lo(n - 1 - i, r) == n - 1 - hi);
    assert(win_hi(n - 1 - i, r, n) == n - 1 - lo);
    lemma_sum_seg_mirror(l, lo, hi + 1);
}

/// On a palindromic line, the stack output at a position equals the output
/// at its mirror image.
proof fn lemma_stack_px_mirror(l: Seq<u8>, r: int, i: int)
    requires
        l.len() >= 1,
        r >= 0,
        mirrored(l),
    ensures
        stack_px(l, r, l.len() - 1 - i) == stack_px(l, r, i),
{
    lemma_stack_sum_mirror(l, r, i);
}

/// Law: the box blur of a horizontally mirror-symmetric plane is itself
/// horizontally mirror-symmetric.
pub proof fn lemma_box_blur_hsym(s: Seq<u8>, width: int, height: int, r: int)
    requires
        1 <= width,
        1 <= height,
        0 <= r,
        hsym(s, width, height),
    ensures
        hsym(box_blur_spec(s, width, height, r), width, height),
{
    let hp = box_h_pass(s, width, height, r);
    assert forall|h: int| 0 <= h < height implies mirrored(#[trigger] row_of(hp, width, h)) by {
        let row = row_of(s, width, h);
        assert(mirrored(row));
        assert(row.len() == width);
        assert(row_of(hp, width, h).len() == width);
        assert forall|w: int| 0 <= w < width implies #[trigger] row_of(hp, width, h)[w] == row_of(
            hp,
            width,
            h,
        )[width - 1 - w] by {
            lemma_box_hp_at(s, width, height, r, h, w);
            lemma_box_hp_at(s, width, height, r, h, width - 1 - w);
            assert(row_of(hp, width, h)[w] == hp[h * width + w * 1]);
            assert(row_of(hp, width, h)[width - 1 - w] == hp[h * width + (width - 1 - w) * 1]);
            lemma_box_px_mirror(row, r, w);
        }
    }
    let vp = box_v_pass(hp, width, height, r);
    assert forall|h: int| 0 <= h < height implies mirrored(#[trigger] row_of(vp, width, h)) by {
        assert(row_of(vp, width, h).len() == width);
        assert forall|w: int| 0 <= w < width implies #[trigger] row_of(vp, width, h)[w] == row_of(
            vp,
            width,
            h,
        )[width - 1 - w] by {
            lemma_box_vp_at(hp, width, height, r, h, w);
            lemma_box_vp_at(hp, width, height, r, h, width - 1 - w);
            assert(row_of(vp, width, h)[w] == vp[h * width + w * 1]);
            assert(row_of(vp, width, h)[width - 1 - w] == vp[h * width + (width - 1 - w) * 1]);
            let c1 = col_of(hp, width, height, w);
            let c2 = col_of(hp, width, height, width - 1 - w);
            assert(c1 =~= c2) by {
                assert forall|i: int| 0 <= i < height implies c1[i] == c2[i] by {
                    assert(c1[i] == hp[w + i * width]);
                    assert(c2[i] == hp[(width - 1 - w) + i * width]);
                    assert(mirrored(row_of(hp, width, i)));
                    assert(row_of(hp, width, i).len() == width);
                    assert(row_of(hp, width, i)[w] == hp[i * width + w * 1]);
                    assert(row_of(hp, width, i)[width - 1 - w] == hp[i * width + (width - 1 - w)
                        * 1]);
                }
            }
        }
    }
}

/// Law: the box blur of a vertically mirror-symmetric plane is itself
/// vertically mirror-symmetric.
pub proof fn lemma_box_blur_vsym(s: Seq<u8>, width: int, height: int, r: int)
    requires
        1 <= width,
        1 <= height,
        0 <= r,
        vsym(s, width, height),
    ensures
        vsym(box_blur_spec(s, width, height, r), width, height),
{
    let hp = box_h_pass(s, width, height, r);
    assert forall|w: int| 0 <= w < width implies mirrored(
        #[trigger] col_of(hp, width, height, w),
    ) by {
        assert(col_of(hp, width, height, w).len() == height);
        assert forall|i: int| 0 <= i < height implies #[trigger] col_of(hp, width, height, w)[i]
            == col_of(hp, width, height, w)[height - 1 - i] by {
            lemma_box_hp_at(s, width, height, r, i, w);
            lemma_box_hp_at(s, width, height, r, height - 1 - i, w);
            assert(col_of(hp, width, height, w)[i] == hp[w + i * width]);
            assert(col_of(hp, width, height, w)[height - 1 - i] == hp[w + (height - 1 - i)
                * width]);
            let r1 = row_of(s, width, i);
            let r2 = row_of(s, width, height - 1 - i);
            assert(r1 =~= r2) by {
                assert forall|ww: int| 0 <= ww < width implies r1[ww] == r2[ww] by {
                    assert(mirrored(col_of(s, width, height, ww)));
                    assert(col_of(s, width, height, ww).len() == height);
                    assert(col_of(s, width, height, ww)[i] == s[ww + i * width]);
                    assert(col_of(s, width, height, ww)[height - 1 - i] == s[ww + (height - 1 - i)
                        * width]);
                    assert(r1[ww] == s[i * width + ww * 1]);
                    assert(r2[ww] == s[(height - 1 - i) * width + ww * 1]);
                }
            }
        }
    }
    let vp = box_v_pass(hp, width, height, r);
    assert forall|w: int| 0 <= w < width implies mirrored(
        #[trigger] col_of(vp, width, height, w),
    ) by {
        assert(col_of(vp, width, height, w).len() == height);
        assert forall|i: int| 0 <= i < height implies #[trigger] col_of(vp, width, height, w)[i]
            == col_of(vp, width, height, w)[height - 1 - i] by {
            lemma_box_vp_at(hp, width, height, r, i, w);
            lemma_box_vp_at(hp, width, height, r, height - 1 - i, w);
            assert(col_of(vp, width, height, w)[i] == vp[w + i * width]);
            assert(col_of(vp, width, height, w)[height - 1 - i] == vp[w + (height - 1 - i)
                * width]);
            assert(mirrored(col_of(hp, width, height, w)));
            lemma_box_px_mirror(col_of(hp, width, height, w), r, i);
        }
    }
}

/// Law: the stack blur of a horizontally mirror-symmetric plane is itself
/// horizontally mirror-symmetric.
pub proof fn lemma_stack_blur_hsym(s: Seq<u8>, width: int, height: int, r: int)
    requires
        1 <= width,
        1 <= height,
        0 <= r,
        hsym(s, width, height),
    ensures
        hsym(stack_blur_spec(s, width, height, r), width, height),
{
    let hp = stack_h_pass(s, width, height, r);
    assert forall|h: int| 0 <= h < height implies mirrored(#[trigger] row_of(hp, width, h)) by {
        let row = row_of(s, width, h);
        assert(mirrored(row));
        assert(row.len() == width);
        assert(row_of(hp, width, h).len() == width);
        assert forall|w: int| 0 <= w < width implies #[trigger] row_of(hp, width, h)[w] == row_of(
            hp,
            width,
            h,
        )[width - 1 - w] by {
            lemma_stack_hp_at(s, width, height, r, h, w);
            lemma_stack_hp_at(s, width, height, r, h, width - 1 - w);
            assert(row_of(hp, width, h)[w] == hp[h * width + w * 1]);
            assert(row_of(hp, width, h)[width - 1 - w] == hp[h * width + (width - 1 - w) * 1]);
            lemma_stack_px_mirror(row, r, w);
        }
    }
    let vp = stack_v_pass(hp, width, height, r);
    assert forall|h: int| 0 <= h < height implies mirrored(#[trigger] row_of(vp, width, h)) by {
        assert(row_of(vp, width, h).len() == width);
        assert forall|w: int| 0 <= w < width implies #[trigger] row_of(vp, width, h)[w] == row_of(
            vp,
            width,
            h,
        )[width - 1 - w] by {
            lemma_stack_vp_at(hp, width, height, r, h, w);
            lemma_stack_vp_at(hp, width, height, r, h, width - 1 - w);
            assert(row_of(vp, width, h)[w] == vp[h * width + w * 1]);
            assert(row_of(vp, width, h)[width - 1 - w] == vp[h * width + (width - 1 - w) * 1]);
            let c1 = col_of(hp, width, height, w);
            let c2 = col_of(hp, width, height, width - 1 - w);
            assert(c1 =~= c2) by {
                assert forall|i: int| 0 <= i < height implies c1[i] == c2[i] by {
                    assert(c1[i] == hp[w + i * width]);
                    assert(c2[i] == hp[(width - 1 - w) + i * width]);
                    assert(mirrored(row_of(hp, width, i)));
                    assert(row_of(hp, width, i).len() == width);
                    assert(row_of(hp, width, i)[w] == hp[i * width + w * 1]);
                    assert(row_of(hp, width, i)[width - 1 - w] == hp[i * width + (width - 1 - w)
                        * 1]);
                }
            }
        }
    }
}

/// Law: the stack blur of a vertically mirror-symmetric plane is itself
/// vertically mirror-symmetric.
pub proof fn lemma_stack_blur_vsym(s: Seq<u8>, width: int, height: int, r: int)
    requires
        1 <= width,
        1 <= height,
        0 <= r,
        vsym(s, width, height),
    ensures
        vsym(stack_blur_spec(s, width, height, r), width, height),
{
    let hp = stack_h_pass(s, width, height, r);
    assert forall|w: int| 0 <= w < width implies mirrored(
        #[trigger] col_of(hp, width, height, w),
    ) by {
        assert(col_of(hp, width, height, w).len() == height);
        assert forall|i: int| 0 <= i < height implies #[trigger] col_of(hp, width, height, w)[i]
            == col_of(hp, width, height, w)[height - 1 - i] by {
            lemma_stack_hp_at(s, width, height, r, i, w);
            lemma_stack_hp_at(s, width, height, r, height - 1 - i, w);
            assert(col_of(hp, width, height, w)[i] == hp[w + i * width]);
            assert(col_of(hp, width, height, w)[height - 1 - i] == hp[w + (height - 1 - i)
                * width]);
            let r1 = row_of(s, width, i);
            let r2 = row_of(s, width, height - 1 - i);
            assert(r1 =~= r2) by {
                assert forall|ww: int| 0 <= ww < width implies r1[ww] == r2[ww] by {
                    assert(mirrored(col_of(s, width, height, ww)));
                    assert(col_of(s, width, height, ww).len() == height);
                    assert(col_of(s, width, height, ww)[i] == s[ww + i * width]);
                    assert(col_of(s, width, height, ww)[height - 1 - i] == s[ww + (height - 1 - i)
                        * width]);
                    assert(r1[ww] == s[i * width + ww * 1]);
                    assert(r2[ww] == s[(height - 1 - i) * width + ww * 1]);
                }
            }
        }
    }
    let vp = stack_v_pass(hp, width, height, r);
    assert forall|w: int| 0 <= w < width implies mirrored(
        #[trigger] col_of(vp, width, height, w),
    ) by {
        assert(col_of(vp, width, height, w).len() == height);
        assert forall|i: int| 0 <= i < height implies #[trigger] col_of(vp, width, height, w)[i]
            == col_of(vp, width, height, w)[height - 1 - i] by {
            lemma_stack_vp_at(hp, width, height, r, i, w);
            lemma_stack_vp_at(hp, width, height, r, height - 1 - i, w);
            assert(col_of(vp, width, height, w)[i] == vp[w + i * width]);
            assert(col_of(vp, width, height, w)[height - 1 - i] == vp[w + (height - 1 - i)
                * width]);
            assert(mirrored(col_of(hp, width, height, w)));
            lemma_stack_px_mirror(col_of(hp, width, height, w), r, i);
        }
    }
}

/// The sum of the row-window sums of rows `h + d, ..., h + r` around an
/// interior position `(h, w)`.
pub open spec fn window_rows(s: Seq<u8>, width: int, r: int, h: int, w: int, d: int) -> int
    decreases r + 1 - d,
{
    if d > r {
        0
    } else {
        sum_seg(row_of(s, width, h + d), w - r, w + r + 1) + window_rows(s, width, r, h, w, d + 1)
    }
}

/// The sum of all `(2r + 1) * (2r + 1)` input samples around an interior
/// position `(h, w)`.
pub open spec fn window_total(s: Seq<u8>, width: int, r: int, h: int, w: int) -> int {
    window_rows(s, width, r, h, w, -r)
}

/// After the horizontal pass, the column segment under an interior position
/// carries the row-window quotients; scaled back up by `2r + 1` they total
/// the raw row-window sums, provided each of those is an exact multiple.
proof fn lemma_col_total(s: Seq<u8>, width: int, height: int, r: int, h: int, w: int, d: int)
    requires
        1 <= width,
        1 <= height,
        0 <= r,
        2 * r < width,
        2 * r < height,
        width * height <= s.len(),
        r <= h < height - r,
        r <= w < width - r,
        forall|hh: int|
            h - r <= hh <= h + r ==> sum_seg(#[trigger] row_of(s, width, hh), w - r, w + r + 1) % (
            2 * r + 1) == 0,
        -r <= d <= r + 1,
    ensures
        (2 * r + 1) * sum_seg(
            col_of(box_h_pass(s, width, height, r), width, height, w),
            h + d,
            h + r + 1,
        ) == window_rows(s, width, r, h, w, d),
    decreases r + 1 - d,
{
    let hp = box_h_pass(s, width, height, r);
    let colhp = col_of(hp, width, height, w);
    let c = 2 * r + 1;
    if d == r + 1 {
        assert(sum_seg(colhp, h + d, h + r + 1) == 0);
        assert(c * 0 == 0) by (nonlinear_arith);
    } else {
        lemma_col_total(s, width, height, r, h, w, d + 1);
        let row = row_of(s, width, h + d);
        let rowsum = sum_seg(row, w - r, w + r + 1);
        // the horizontal-pass sample under (h + d, w)
        let kk = w + (h + d) * width;
        lemma_mul_le(h + d, height - 1, width);
        vstd::arithmetic::mul::lemma_mul_is_commutative(width, height);
        assert((height - 1) * width + width == height * width) by (nonlinear_arith);
        assert(0 <= kk < width * height);
        vstd::arithmetic::div_mod::lemma_fundamental_div_mod_converse(kk, width, h + d, w);
        assert(colhp[h + d] == hp[kk]);
        assert(hp[kk] == box_px(row, r, w));
        assert(win_lo(w, r) == w - r);
        assert(win_hi(w, r, width) == w + r);
        assert(row.len() == width);
        lemma_sum_seg_nonneg(row, w - r, w + r + 1);
        lemma_sum_seg_ubound(row, w - r, w + r + 1);
        vstd::arithmetic::div_mod::lemma_multiply_divide_lt(rowsum, c, 256);
        vstd::arithmetic::div_mod::lemma_div_pos_is_pos(rowsum, c);
        assert(box_px(row, r, w) as int == rowsum / c);
        // the exact multiple comes back when scaled up
        vstd::arithmetic::div_mod::lemma_fundamental_div_mod(rowsum, c);
        assert(rowsum % c == 0);
        assert(rowsum == c * (rowsum / c));
        // unfold the column sum at its head
        assert(sum_seg(colhp, h + d, h + r + 1) == colhp[h + d] + sum_seg(
            colhp,
            h + d + 1,
            h + r + 1,
        ));
        assert(c * (colhp[h + d] + sum_seg(colhp, h + d + 1, h + r + 1)) == c * (colhp[h
            + d] as int) + c * sum_seg(colhp, h + d + 1, h + r + 1)) by (nonlinear_arith);
    }
}

/// Law: at an interior position (at least `radius` from every edge), when
/// each of the `2r + 1` row-window sums is an exact multiple of `2r + 1`,
/// the box blur's output equals the integer-truncated mean of the whole
/// `(2r + 1) * (2r + 1)` input window. (Without that divisibility the two
/// truncating passes can round lower than the one-shot mean.)
pub proof fn lemma_box_blur_interior_exact(
    s: Seq<u8>,
    width: int,
    height: int,
    r: int,
    h: int,
    w: int,
)
    requires
        1 <= width,
        1 <= height,
        0 <= r,
        2 * r < width,
        2 * r < height,
        width * height <= s.len(),
        r <= h < height - r,
        r <= w < width - r,
        forall|hh: int|
            h - r <= hh <= h + r ==> sum_seg(#[trigger] row_of(s, width, hh), w - r, w + r + 1) % (
            2 * r + 1) == 0,
    ensures
        box_blur_spec(s, width, height, r)[h * width + w] == (window_total(s, width, r, h, w) / ((2
            * r + 1) * (2 * r + 1))) as u8,
{
    let hp = box_h_pass(s, width, height, r);
    let colhp = col_of(hp, width, height, w);
    let c = 2 * r + 1;
    let k = h * width + w;
    lemma_mul_le(h, height - 1, width);
    vstd::arithmetic::mul::lemma_mul_is_commutative(width, height);
    assert((height - 1) * width + width == height * width) by (nonlinear_arith);
    assert(0 <= k < width * height);
    vstd::arithmetic::div_mod::lemma_fundamental_div_mod_converse(k, width, h, w);
    assert(box_blur_spec(s, width, height, r)[k] == box_px(colhp, r, h));
    assert(win_lo(h, r) == h - r);
    assert(win_hi(h, r, height) == h + r);
    let colsum = sum_seg(colhp, h - r, h + r + 1);
    lemma_col_total(s, width, height, r, h, w, -r);
    assert(c * colsum == window_total(s, width, r, h, w));
    lemma_sum_seg_nonneg(colhp, h - r, h + r + 1);
    vstd::arithmetic::mul::lemma_mul_nonnegative(c, colsum);
    vstd::arithmetic::div_mod::lemma_div_denominator(c * colsum, c, c);
    vstd::arithmetic::div_mod::lemma_div_multiples_vanish(colsum, c);
    assert(((c * colsum) / c) / c == (c * colsum) / (c * c));
    assert((c * colsum) / c == colsum);
    assert((c * colsum) / (c * c) == colsum / c);
    lemma_sum_seg_ubound(colhp, h - r, h + r + 1);
    vstd::arithmetic::div_mod::lemma_multiply_divide_lt(colsum, c, 256);
    vstd::arithmetic::div_mod::lemma_div_pos_is_pos(colsum, c);
    assert(box_px(colhp, r, h) as int == colsum / c);
}

/// Scaling `v * (r + 1)^2` by the fixed-point reciprocal gives back exactly
/// `v`, for every byte `v` and tabulated radius.
proof fn lemma_scaled_exact(r: int, v: u8)
    requires
        0 <= r < 256,
    ensures
        ((v as int) * ((r + 1) * (r + 1)) * mul_entry(r)) / pow2s(shg_entry(r)) == v as int,
{
    lemma_table_ok(r);
    let a = (r + 1) * (r + 1) * mul_entry(r);
    let p = pow2s(shg_entry(r));
    assert((v as int) * ((r + 1) * (r + 1)) * mul_entry(r) == (v as int) * a)
        by (nonlinear_arith)
        requires
            a == (r + 1) * (r + 1) * mul_entry(r),
    ;
    vstd::arithmetic::mul::lemma_mul_inequality(p, a, v as int);
    vstd::arithmetic::mul::lemma_mul_is_commutative(p, v as int);
    vstd::arithmetic::mul::lemma_mul_is_commutative(a, v as int);
    assert((v as int) * (a - p) == (v as int) * a - (v as int) * p) by (nonlinear_arith);
    vstd::arithmetic::mul::lemma_mul_inequality(v as int, 255, a - p);
    vstd::arithmetic::mul::lemma_mul_is_commutative(v as int, a - p);
    vstd::arithmetic::mul::lemma_mul_is_commutative(255, a - p);
    assert(255 * (a - p) < p);
    assert((v as int) * p <= (v as int) * a);
    assert((v as int) * a < (v as int) * p + p);
    vstd::arithmetic::div_mod::lemma_fundamental_div_mod_converse(
        (v as int) * a,
        p,
        v as int,
        (v as int) * a - (v as int) * p,
    );
}

/// A constant line's stack output is that constant: the triangular weights
/// total `(r + 1)^2` and the tables undo exactly that factor.
proof fn lemma_stack_px_const(l: Seq<u8>, r: int, i: int, v: u8)
    requires
        l.len() >= 1,
        0 <= r < 256,
        forall|k: int| 0 <= k < l.len() ==> l[k] == v,
    ensures
        stack_px(l, r, i) == v,
{
    lemma_wsum_const(l, r, i, -r, r + 1, v);
    lemma_wfactor_total(r);
    assert(stack_sum(l, r, i) == (v as int) * ((r + 1) * (r + 1)));
    lemma_scaled_exact(r, v);
    assert(stack_sum(l, r, i) * mul_entry(r) == (v as int) * ((r + 1) * (r + 1)) * mul_entry(r));
}

/// Law: `stack_blur` maps a constant plane to itself for any radius its
/// preconditions admit — edge clamping replicates the same value, and the
/// reciprocal tables normalise the triangular weights exactly.
pub proof fn lemma_stack_blur_constant(s: Seq<u8>, width: int, height: int, r: int, v: u8)
    requires
        1 <= width,
        1 <= height,
        0 <= r <= 255,
        r < width,
        r < height,
        width * height <= s.len(),
        forall|k: int| 0 <= k < width * height ==> s[k] == v,
    ensures
        forall|k: int| 0 <= k < width * height ==> stack_blur_spec(s, width, height, r)[k] == v,
{
    let hp = stack_h_pass(s, width, height, r);
    assert forall|k: int| 0 <= k < width * height implies hp[k] == v by {
        vstd::arithmetic::div_mod::lemma_fundamental_div_mod(k, width);
        vstd::arithmetic::div_mod::lemma_mod_bound(k, width);
        vstd::arithmetic::mul::lemma_mul_is_commutative(width, height);
        vstd::arithmetic::div_mod::lemma_multiply_divide_lt(k, width, height);
        lemma_row_const(s, width, height, k / width, v);
        lemma_stack_px_const(row_of(s, width, k / width), r, k % width, v);
    }
    let vp = stack_v_pass(hp, width, height, r);
    assert forall|k: int| 0 <= k < width * height implies vp[k] == v by {
        vstd::arithmetic::div_mod::lemma_fundamental_div_mod(k, width);
        vstd::arithmetic::div_mod::lemma_mod_bound(k, width);
        vstd::arithmetic::mul::lemma_mul_is_commutative(width, height);
        vstd::arithmetic::div_mod::lemma_multiply_divide_lt(k, width, height);
        lemma_col_const(hp, width, height, k % width, v);
        lemma_stack_px_const(col_of(hp, width, height, k % width), r, k / width, v);
    }
}

} // verus!
