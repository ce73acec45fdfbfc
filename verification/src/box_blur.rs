//! Exact box blur: a separable mean filter with truncated edge windows.

use vstd::prelude::*;

use crate::model::{
    box_blur_spec, box_h_pass, box_px, col_of, line_of, row_of, sum_seg, win_hi, win_lo,
};
use crate::plane::{Plane, MAX_SIZE};
use crate::sums::{lemma_mul_le, lemma_sum_seg_nonneg, lemma_sum_seg_tail, lemma_sum_seg_ubound};

verus! {

/// In-place exact box blur of the first `width * height` samples of the
/// plane: a horizontal pass writes the scratch band, a vertical pass writes
/// the primary buffer back. Samples beyond `width * height` are untouched.
/// The averaging window is truncated at the plane's edges, so every output
/// sample is the exact integer-truncated mean of its in-bounds neighbours.
#[verifier::loop_isolation(false)]
pub fn box_blur(plane: &mut Plane, width: u32, height: u32, radius: u32)
    requires
        old(plane).wf(),
        1 <= width,
        1 <= height,
        2 * (radius as int) < width as int,
        2 * (radius as int) < height as int,
        (width as int) * (height as int) <= MAX_SIZE,
    ensures
        final(plane).wf(),
        final(plane)@.len() == MAX_SIZE,
        forall|k: int|
            0 <= k < (width as int) * (height as int) ==> final(plane)@[k] == box_blur_spec(
                old(plane)@,
                width as int,
                height as int,
                radius as int,
            )[k],
        forall|k: int|
            (width as int) * (height as int) <= k < MAX_SIZE ==> final(plane)@[k] == old(
                plane,
            )@[k],
{
    let wd = width as usize;
    let ht = height as usize;
    let rad = radius as usize;
    proof {
        plane.lemma_parts();
    }
    let ghost s0 = plane.buffer@;
    let ghost total: int = (wd as int) * (ht as int);
    let ghost hp = box_h_pass(s0, wd as int, ht as int, rad as int);
    proof {
        assert(hp.len() == total);
    }
    let mut h: usize = 0;
    while h < ht
        invariant
            h <= ht,
            plane.buffer@ == s0,
            plane.scratch@.len() == MAX_SIZE,
            forall|k: int| 0 <= k < h * wd ==> plane.scratch@[k] == hp[k],
        decreases ht - h,
    {
        proof {
            lemma_mul_le(h + 1, ht as int, wd as int);
            assert((h as int) * (wd as int) + (wd as int) == (h + 1) * (wd as int))
                by (nonlinear_arith);
            vstd::arithmetic::mul::lemma_mul_is_commutative(ht as int, wd as int);
            lemma_mul_le(h as int, ht as int, wd as int);
        }
        let base = h * wd;
        box_pass_line(&plane.buffer, &mut plane.scratch, base, 1, wd, rad);
        proof {
            let ghost l = line_of(s0, base as int, 1, wd as int);
            assert forall|k: int| base <= k < base + wd implies plane.scratch@[k] == hp[k] by {
                let i = k - base;
                vstd::arithmetic::div_mod::lemma_fundamental_div_mod_converse(
                    k,
                    wd as int,
                    h as int,
                    i,
                );
                assert(plane.scratch@[base + i * 1] == box_px(l, rad as int, i));
                assert(row_of(s0, wd as int, h as int) == l);
            }
        }
        h = h + 1;
    }
    proof {
        assert(forall|k: int| 0 <= k < total ==> plane.scratch@[k] == hp[k]);
    }
    let ghost s1 = plane.scratch@;
    let ghost vp = box_blur_spec(s0, wd as int, ht as int, rad as int);
    let mut w: usize = 0;
    while w < wd
        invariant
            w <= wd,
            plane.scratch@ == s1,
            plane.buffer@.len() == MAX_SIZE,
            forall|k: int| 0 <= k < total && k % (wd as int) < w ==> plane.buffer@[k] == vp[k],
            forall|k: int|
                0 <= k < MAX_SIZE && (k >= total || k % (wd as int) >= w) ==> plane.buffer@[k]
                    == s0[k],
        decreases wd - w,
    {
        proof {
            lemma_mul_le(ht - 1, ht as int, wd as int);
            lemma_mul_le(1, wd as int, ht as int);
            vstd::arithmetic::mul::lemma_mul_is_commutative(ht as int, wd as int);
            assert((ht - 1) * (wd as int) + (wd as int) == (ht as int) * (wd as int))
                by (nonlinear_arith);
        }
        box_pass_line(&plane.scratch, &mut plane.buffer, w, wd, ht, rad);
        proof {
            let ghost col = line_of(s1, w as int, wd as int, ht as int);
            assert(col =~= col_of(hp, wd as int, ht as int, w as int)) by {
                assert forall|i: int| 0 <= i < ht implies s1[w + #[trigger] (i * (wd as int))]
                    == hp[w + i * (wd as int)] by {
                    lemma_mul_le(i, ht - 1, wd as int);
                }
            }
            assert forall|k: int| 0 <= k < total && k % (wd as int) == w implies plane.buffer@[k]
                == vp[k] by {
                let i = k / (wd as int);
                vstd::arithmetic::div_mod::lemma_fundamental_div_mod(k, wd as int);
                assert(k == i * (wd as int) + w);
                assert((wd as int) * (ht as int) == total);
                vstd::arithmetic::div_mod::lemma_multiply_divide_lt(k, wd as int, ht as int);
                assert(0 <= i < ht);
                assert(w + i * (wd as int) == k);
                assert(plane.buffer@[w + i * (wd as int)] == box_px(col, rad as int, i));
                assert(vp[k] == box_px(col_of(hp, wd as int, ht as int, w as int), rad as int, i));
            }
            assert forall|k: int| 0 <= k < total && k % (wd as int) < w implies plane.buffer@[k]
                == vp[k] by {
                if k >= w && (k - w) % (wd as int) == 0 {
                    let m = (k - w) / (wd as int);
                    vstd::arithmetic::div_mod::lemma_fundamental_div_mod(k - w, wd as int);
                    vstd::arithmetic::div_mod::lemma_fundamental_div_mod_converse(
                        k,
                        wd as int,
                        m,
                        w as int,
                    );
                    assert(false);
                }
            }
            assert forall|k: int|
                0 <= k < MAX_SIZE && (k >= total || k % (wd as int) > w) implies plane.buffer@[k]
                == s0[k] by {
                if k >= total {
                    assert((wd - 1) + (ht - 1) * (wd as int) < total) by (nonlinear_arith)
                        requires
                            total == (wd as int) * (ht as int),
                            1 <= wd,
                            1 <= ht,
                    ;
                    assert(k > w + (ht - 1) * (wd as int));
                } else {
                    if k >= w && (k - w) % (wd as int) == 0 {
                        let m = (k - w) / (wd as int);
                        vstd::arithmetic::div_mod::lemma_fundamental_div_mod(k - w, wd as int);
                        vstd::arithmetic::div_mod::lemma_fundamental_div_mod_converse(
                            k,
                            wd as int,
                            m,
                            w as int,
                        );
                        assert(k % (wd as int) == w);
                        assert(false);
                    }
                }
            }
        }
        w = w + 1;
    }
    proof {
        assert forall|k: int| 0 <= k < total implies plane.buffer@[k] == vp[k] by {
            vstd::arithmetic::div_mod::lemma_mod_bound(k, wd as int);
        }
        plane.lemma_parts();
    }
}

/// Box-blur one line of the flat plane (element `i` at `base + i * stride`)
/// from `src` into `dst`, keeping a sliding sum and a shrinking cell count at
/// the line's ends. Every flat index outside the line keeps its old value.
#[verifier::loop_isolation(false)]
pub(crate) fn box_pass_line(
    src: &Vec<u8>,
    dst: &mut Vec<u8>,
    base: usize,
    stride: usize,
    n: usize,
    radius: usize,
)
    requires
        1 <= stride,
        1 <= n,
        n <= MAX_SIZE,
        2 * radius < n,
        base + (n - 1) * stride < src.len(),
        old(dst).len() == src.len(),
    ensures
        final(dst).len() == old(dst).len(),
        forall|i: int|
            0 <= i < n ==> final(dst)@[base + i * stride] == box_px(
                line_of(src@, base as int, stride as int, n as int),
                radius as int,
                i,
            ),
        forall|k: int|
            0 <= k < old(dst).len() && (k < base || k > base + (n - 1) * stride || (k - base) % (
            stride as int) != 0) ==> final(dst)@[k] == old(dst)@[k],
{
    let ghost l = line_of(src@, base as int, stride as int, n as int);
    proof {
        assert(l.len() == n);
    }
    let mut sum: u32 = 0;
    let mut j: usize = 0;
    while j <= radius
        invariant
            j <= radius + 1,
            sum as int == sum_seg(l, 0, j as int),
            sum <= 255 * j,
        decreases radius + 1 - j,
    {
        proof {
            lemma_mul_le(j as int, n - 1, stride as int);
            assert(l[j as int] == src@[base + (j as int) * stride]);
            lemma_sum_seg_tail(l, 0, j as int);
        }
        sum = sum + src[base + j * stride] as u32;
        j = j + 1;
    }
    let mut cell_count: u32 = (radius + 1) as u32;
    proof {
        assert(win_lo(0, radius as int) == 0);
        assert(win_hi(0, radius as int, n as int) == radius as int);
        lemma_sum_seg_ubound(l, 0, radius + 1 as int);
        vstd::arithmetic::div_mod::lemma_multiply_divide_lt(
            sum as int,
            cell_count as int,
            256,
        );
        assert(sum as int / (cell_count as int) == sum_seg(l, 0, radius + 1) / (radius + 1));
    }
    let first: u8 = (sum / cell_count) as u8;
    proof {
        assert(first == box_px(l, radius as int, 0));
    }
    proof {
        lemma_mul_le(0, n - 1, stride as int);
        vstd::arithmetic::div_mod::lemma_mod_multiples_basic(0, stride as int);
    }
    dst.set(base, first);
    let mut w: usize = 1;
    while w < n
        invariant
            1 <= w <= n,
            dst.len() == old(dst).len(),
            sum as int == sum_seg(l, win_lo(w - 1, radius as int), win_hi(w - 1, radius as int, n as int) + 1),
            cell_count as int == win_hi(w - 1, radius as int, n as int) - win_lo(w - 1, radius as int) + 1,
            forall|i: int| 0 <= i < w ==> dst@[base + i * stride] == box_px(l, radius as int, i),
            forall|k: int|
                0 <= k < old(dst).len() && (k < base || k > base + (n - 1) * stride || (k - base)
                    % (stride as int) != 0) ==> dst@[k] == old(dst)@[k],
        decreases n - w,
    {
        let ghost lo_prev: int = win_lo(w - 1, radius as int);
        let ghost hi_prev: int = win_hi(w - 1, radius as int, n as int);
        let ghost lo_cur: int = win_lo(w as int, radius as int);
        let ghost hi_cur: int = win_hi(w as int, radius as int, n as int);
        proof {
            assert(lo_prev <= w - 1 <= hi_prev);
            lemma_sum_seg_ubound(l, lo_prev, hi_prev + 1);
        }
        if w > radius {
            proof {
                lemma_mul_le(w - radius - 1, n - 1, stride as int);
            }
            let idx_out = base + (w - radius - 1) * stride;
            proof {
                assert(lo_prev == w - 1 - radius);
                assert(lo_cur == lo_prev + 1);
                assert(l[lo_prev] == src@[idx_out as int]);
                assert(sum_seg(l, lo_prev, hi_prev + 1) == l[lo_prev] + sum_seg(
                    l,
                    lo_prev + 1,
                    hi_prev + 1,
                ));
                lemma_sum_seg_nonneg(l, lo_prev + 1, hi_prev + 1);
            }
            sum = sum - src[idx_out] as u32;
            cell_count = cell_count - 1;
        } else {
            proof {
                assert(lo_cur == 0 && lo_prev == 0);
            }
        }
        proof {
            assert(sum as int == sum_seg(l, lo_cur, hi_prev + 1));
            assert(cell_count as int == hi_prev - lo_cur + 1);
        }
        if w < n - radius {
            proof {
                lemma_mul_le(w + radius, n - 1, stride as int);
            }
            let idx_in = base + (w + radius) * stride;
            proof {
                assert(hi_cur == w + radius);
                assert(hi_prev == w - 1 + radius);
                assert(l[hi_cur] == src@[idx_in as int]);
                lemma_sum_seg_tail(l, lo_cur, hi_cur);
                lemma_sum_seg_ubound(l, lo_cur, hi_cur);
            }
            sum = sum + src[idx_in] as u32;
            cell_count = cell_count + 1;
        } else {
            proof {
                assert(hi_cur == n - 1 && hi_prev == n - 1);
            }
        }
        proof {
            assert(sum as int == sum_seg(l, lo_cur, hi_cur + 1));
            assert(cell_count as int == hi_cur - lo_cur + 1);
            assert(lo_cur <= w as int <= hi_cur);
            lemma_sum_seg_ubound(l, lo_cur, hi_cur + 1);
            vstd::arithmetic::div_mod::lemma_multiply_divide_lt(
                sum as int,
                cell_count as int,
                256,
            );
        }
        let q: u8 = (sum / cell_count) as u8;
        proof {
            lemma_mul_le(w as int, n - 1, stride as int);
        }
        let idx = base + w * stride;
        proof {
            assert(q == box_px(l, radius as int, w as int));
            vstd::arithmetic::div_mod::lemma_mod_multiples_basic(w as int, stride as int);
            assert(((idx - base) as int) % (stride as int) == 0);
            assert forall|i: int| 0 <= i < w implies (base + #[trigger] (i * stride)) != idx as int
                && base + i * stride < dst.len() by {
                lemma_mul_le(i + 1, w as int, stride as int);
                assert(i * stride + stride <= w * stride) by (nonlinear_arith)
                    requires
                        (i + 1) * stride <= w * stride,
                ;
                lemma_mul_le(w as int, n - 1, stride as int);
            }
        }
        dst.set(idx, q);
        w = w + 1;
    }
}

} // verus!
