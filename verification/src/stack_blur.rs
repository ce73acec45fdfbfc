//! Approximate stack blur: a separable triangular-weight filter with edge
//! samples clamped and a fixed-point multiply-shift in place of division.

use vstd::prelude::*;

use crate::model::{
    absi, clampi, col_of, in_sum, line_of, out_sum, row_of, stack_blur_spec, stack_h_pass,
    stack_px, stack_sum, tri, usum, wsum,
};
use crate::plane::{Plane, MAX_SIZE};
use crate::stack_sums::{
    lemma_stack_slide, lemma_stack_sum_bounds, lemma_tri_le_square, lemma_tri_nonneg,
    lemma_usum_clamped_low, lemma_usum_nonneg, lemma_usum_shift, lemma_usum_tail,
    lemma_usum_ubound, lemma_wsum_concat, lemma_wsum_head_const, lemma_wsum_tail,
};
use crate::sums::lemma_mul_le;
use crate::tables::{
    lemma_pow2s_matches, lemma_table_ok, mul_entry, mul_lookup, pow2s, shg_entry, shg_lookup,
};

verus! {

/// Scale a triangular window sum by the fixed-point reciprocal of
/// `(r + 1) * (r + 1)`: multiply in 64 bits, shift right, truncate to a byte
/// (the table bounds keep the result under 256, so nothing is lost).
fn scale_output(acc: u32, mulv: u32, shg: u32, Ghost(r): Ghost<int>) -> (v: u8)
    requires
        0 <= r < 256,
        mulv as int == mul_entry(r),
        shg as int == shg_entry(r),
        acc as int <= 255 * ((r + 1) * (r + 1)),
    ensures
        v as int == (acc as int * mul_entry(r)) / pow2s(shg_entry(r)),
{
    proof {
        lemma_table_ok(r);
        assert((acc as int) * (mulv as int) < 0x1_0000_0000_0000_0000) by (nonlinear_arith)
            requires
                (acc as int) >= 0,
                (acc as int) < 0x1_0000_0000,
                (mulv as int) >= 0,
                (mulv as int) < 0x1_0000_0000,
        ;
    }
    let prod: u64 = (acc as u64) * (mulv as u64);
    proof {
        vstd::bits::lemma_u64_shr_is_div(prod, shg as u64);
        lemma_pow2s_matches(shg_entry(r));
        lemma_mul_le(acc as int, 255 * ((r + 1) * (r + 1)), mulv as int);
        assert((255 * ((r + 1) * (r + 1))) * mul_entry(r) == 255 * ((r + 1) * (r + 1) * mul_entry(
            r,
        ))) by (nonlinear_arith);
        vstd::arithmetic::div_mod::lemma_multiply_divide_lt(
            prod as int,
            pow2s(shg_entry(r)),
            256,
        );
    }
    (prod >> (shg as u64)) as u8
}

/// Stack-blur one line of the flat plane (element `i` at `base + i * stride`)
/// from `src` into `dst`. A running triangular sum is kept through two plain
/// accumulators: the samples on the window's leading half and on its trailing
/// half. Out-of-range samples are clamped to the line's edge values. Every
/// flat index outside the line keeps its old value.
#[verifier::loop_isolation(false)]
#[verifier::rlimit(100)]
pub(crate) fn stack_pass_line(
    src: &Vec<u8>,
    dst: &mut Vec<u8>,
    base: usize,
    stride: usize,
    n: usize,
    radius: usize,
    mulv: u32,
    shg: u32,
)
    requires
        1 <= stride,
        1 <= n,
        n <= MAX_SIZE,
        radius < n,
        radius <= 255,
        base + (n - 1) * stride < src.len(),
        old(dst).len() == src.len(),
        mulv as int == mul_entry(radius as int),
        shg as int == shg_entry(radius as int),
    ensures
        final(dst).len() == old(dst).len(),
        forall|i: int|
            0 <= i < n ==> final(dst)@[base + i * stride] == stack_px(
                line_of(src@, base as int, stride as int, n as int),
                radius as int,
                i,
            ),
        forall|k: int|
            0 <= k < old(dst).len() && (k < base || k > base + (n - 1) * stride || (k - base) % (
            stride as int) != 0) ==> final(dst)@[k] == old(dst)@[k],
{
    let ghost l = line_of(src@, base as int, stride as int, n as int);
    let ghost rad: int = radius as int;
    proof {
        assert(l.len() == n);
        lemma_mul_le(0, n - 1, stride as int);
        assert(l[0] == src@[base as int]);
    }
    let p0: u32 = src[base] as u32;
    let mut acc: u32 = 0;
    let mut j: usize = 1;
    while j <= radius + 1
        invariant
            1 <= j <= radius + 2,
            acc as int == (l[0] as int) * tri(j - 1),
            acc as int <= 255 * tri(j - 1),
        decreases radius + 2 - j,
    {
        proof {
            lemma_tri_nonneg(j - 1);
            lemma_tri_le_square(j as int);
            lemma_tri_le_square(j - 1);
            assert((j - 1) * (j - 1) <= 65025) by (nonlinear_arith)
                requires
                    0 <= j - 1 <= 255,
            ;
            assert((p0 as int) * (j as int) <= 65280) by (nonlinear_arith)
                requires
                    0 <= p0 <= 255,
                    0 <= j <= 256,
            ;
            assert(tri(j as int) == j + tri(j - 1));
            assert((l[0] as int) * tri(j - 1) + (l[0] as int) * (j as int) == (l[0] as int) * tri(
                j as int,
            )) by (nonlinear_arith)
                requires
                    tri(j as int) == j + tri(j - 1),
            ;
            lemma_mul_le(l[0] as int, 255, tri(j as int));
            vstd::arithmetic::mul::lemma_mul_is_commutative(l[0] as int, tri(j as int));
            vstd::arithmetic::mul::lemma_mul_is_commutative(255, tri(j as int));
        }
        acc = acc + p0 * (j as u32);
        j = j + 1;
    }
    proof {
        lemma_wsum_head_const(l, rad, -rad);
        assert(tri(0) == 0);
        assert(acc as int == wsum(l, rad, 0, -rad, 1));
        lemma_tri_le_square(rad + 1);
        lemma_tri_nonneg(rad + 1);
        assert((rad + 1) * (rad + 1) <= 65536) by (nonlinear_arith)
            requires
                0 <= rad <= 255,
        ;
    }
    let mut incoming: u32 = p0;
    proof {
        assert((p0 as int) * ((radius + 1) as int) <= 65280) by (nonlinear_arith)
            requires
                0 <= p0 <= 255,
                0 <= radius <= 255,
        ;
    }
    let mut outgoing: u32 = p0 * ((radius + 1) as u32);
    proof {
        lemma_usum_clamped_low(l, 0, -(rad + 1), 0);
        vstd::arithmetic::mul::lemma_mul_is_commutative(rad + 1, l[0] as int);
        assert(outgoing as int == out_sum(l, rad, 0));
        assert(clampi(0, n as int) == 0);
        assert(usum(l, 0, 0, 1) == l[clampi(0, n as int)] + usum(l, 0, 1, 1));
        assert(incoming as int == usum(l, 0, 0, 1));
    }
    let mut j: usize = 1;
    while j <= radius
        invariant
            1 <= j <= radius + 1,
            incoming as int == usum(l, 0, 0, j as int),
            incoming as int <= 255 * (j as int),
            acc as int == (l[0] as int) * tri(rad + 1) + wsum(l, rad, 0, 1, j as int),
            acc as int <= 16842495 + 65280 * ((j as int) - 1),
        decreases radius + 1 - j,
    {
        proof {
            lemma_mul_le(j as int, n - 1, stride as int);
        }
        let s = src[base + j * stride] as u32;
        let wt_run: u32 = (radius - j + 1) as u32;
        proof {
            assert(l[j as int] == src@[base + (j as int) * stride]);
            assert(clampi(0 + j, n as int) == j);
            assert(absi(j as int) == j);
            lemma_usum_tail(l, 0, 0, j as int);
            lemma_wsum_tail(l, rad, 0, 1, j as int);
            vstd::arithmetic::mul::lemma_mul_nonnegative(s as int, wt_run as int);
            vstd::arithmetic::mul::lemma_mul_inequality(s as int, 255, wt_run as int);
            assert((s as int) * (wt_run as int) <= 255 * (wt_run as int));
            assert(255 * (wt_run as int) <= 65280);
            vstd::arithmetic::mul::lemma_mul_is_commutative(
                rad + 1 - absi(j as int),
                l[clampi(0 + j, n as int)] as int,
            );
            assert((rad + 1 - absi(j as int)) * (l[clampi(0 + j, n as int)] as int) == (s as int)
                * (wt_run as int));
        }
        incoming = incoming + s;
        acc = acc + s * wt_run;
        j = j + 1;
    }
    proof {
        lemma_wsum_concat(l, rad, 0, -rad, 1, rad + 1);
        assert(acc as int == stack_sum(l, rad, 0));
        lemma_stack_sum_bounds(l, rad, 0);
        assert(incoming as int == in_sum(l, rad, 0));
    }
    let first = scale_output(acc, mulv, shg, Ghost(rad));
    proof {
        assert(first == stack_px(l, rad, 0));
        vstd::arithmetic::div_mod::lemma_mod_multiples_basic(0, stride as int);
    }
    dst.set(base, first);
    let mut w: usize = 1;
    while w < n
        invariant
            1 <= w <= n,
            dst.len() == old(dst).len(),
            acc as int == stack_sum(l, rad, w - 1),
            incoming as int == in_sum(l, rad, w - 1),
            outgoing as int == out_sum(l, rad, w - 1),
            forall|i: int| 0 <= i < w ==> dst@[base + i * stride] == stack_px(l, rad, i),
            forall|k: int|
                0 <= k < old(dst).len() && (k < base || k > base + (n - 1) * stride || (k - base)
                    % (stride as int) != 0) ==> dst@[k] == old(dst)@[k],
        decreases n - w,
    {
        proof {
            lemma_stack_sum_bounds(l, rad, w - 1);
            lemma_usum_ubound(l, w - 1, 0, rad + 1);
            lemma_usum_ubound(l, w - 1, -(rad + 1), 0);
            lemma_usum_nonneg(l, w - 1, 0, rad + 1);
            lemma_usum_nonneg(l, w - 1, -(rad + 1), 0);
            // peel the trailing half's oldest sample
            assert(usum(l, w - 1, -(rad + 1), 0) == l[clampi(w - 1 - (rad + 1), n as int)] + usum(
                l,
                w - 1,
                -rad,
                0,
            ));
            lemma_usum_nonneg(l, w - 1, -rad, 0);
        }
        if w > radius + 1 {
            proof {
                lemma_mul_le(w - radius - 2, n - 1, stride as int);
                assert(clampi(w - 1 - (rad + 1), n as int) == w - rad - 2);
                assert(l[w - rad - 2] == src@[base + (w - radius - 2) as int * stride]);
            }
            outgoing = outgoing - src[base + (w - radius - 2) * stride] as u32;
        } else {
            proof {
                assert(clampi(w - 1 - (rad + 1), n as int) == 0);
            }
            outgoing = outgoing - src[base] as u32;
        }
        proof {
            assert(outgoing as int == usum(l, w - 1, -rad, 0));
            lemma_usum_tail(l, w - 1, 0, rad + 1);
        }
        if w < n - radius {
            proof {
                lemma_mul_le(w + radius, n - 1, stride as int);
                assert(clampi(w - 1 + (rad + 1), n as int) == w + rad);
                assert(l[w + rad] == src@[base + (w + radius) as int * stride]);
            }
            incoming = incoming + src[base + (w + radius) * stride] as u32;
        } else {
            proof {
                assert(clampi(w - 1 + (rad + 1), n as int) == n - 1);
                lemma_mul_le(n - 1, n - 1, stride as int);
                assert(l[n - 1] == src@[base + (n - 1) as int * stride]);
            }
            incoming = incoming + src[base + (n - 1) * stride] as u32;
        }
        proof {
            assert(incoming as int == usum(l, w - 1, 0, rad + 2));
            lemma_mul_le(w - 1, n - 1, stride as int);
            assert(l[w - 1] == src@[base + (w - 1) as int * stride]);
            assert(clampi(w - 1 + 0, n as int) == w - 1);
            assert(usum(l, w - 1, 0, rad + 2) == l[clampi(w - 1 + 0, n as int)] + usum(
                l,
                w - 1,
                1,
                rad + 2,
            ));
            lemma_usum_shift(l, w - 1, 1, rad + 2);
            lemma_usum_nonneg(l, w - 1, 1, rad + 2);
            lemma_usum_tail(l, w - 1, -rad, 0);
            lemma_usum_shift(l, w - 1, -rad, 1);
        }
        let prev = src[base + (w - 1) * stride] as u32;
        outgoing = outgoing + prev;
        incoming = incoming - prev;
        proof {
            assert(outgoing as int == out_sum(l, rad, w as int));
            assert(incoming as int == in_sum(l, rad, w as int));
            lemma_stack_slide(l, rad, w - 1);
            lemma_stack_sum_bounds(l, rad, w as int);
            lemma_usum_ubound(l, w as int, 0, rad + 1);
            lemma_usum_nonneg(l, w as int, -(rad + 1), 0);
            assert((rad + 1) * (rad + 1) <= 65536) by (nonlinear_arith)
                requires
                    0 <= rad <= 255,
            ;
        }
        acc = acc + incoming - outgoing;
        let v = scale_output(acc, mulv, shg, Ghost(rad));
        proof {
            lemma_mul_le(w as int, n - 1, stride as int);
        }
        let idx = base + w * stride;
        proof {
            assert(v == stack_px(l, rad, w as int));
            vstd::arithmetic::div_mod::lemma_mod_multiples_basic(w as int, stride as int);
            assert(((idx - base) as int) % (stride as int) == 0);
            assert forall|i: int| 0 <= i < w implies (base + #[trigger] (i * stride)) != idx as int
                && base + i * stride < dst.len() by {
                lemma_mul_le(i + 1, w as int, stride as int);
                assert(i * stride + stride <= w * stride) by (nonlinear_arith)
                    requires
                        (i + 1) * stride <= w * stride,
                ;
                lemma_mul_le(w as int, n - 1, stride as int);
            }
        }
        dst.set(idx, v);
        w = w + 1;
    }
}

/// In-place approximate stack blur of the first `width * height` samples of
/// the plane: a horizontal pass writes the scratch band, a vertical pass
/// writes the primary buffer back. Samples beyond `width * height` are
/// untouched. Near the edges the window replicates the nearest edge sample;
/// the divisor is approximated by the fixed-point reciprocal tables, indexed
/// by `radius`, which must lie in `[0, 255]` and under both dimensions.
#[verifier::loop_isolation(false)]
pub fn stack_blur(plane: &mut Plane, width: u32, height: u32, radius: u32)
    requires
        old(plane).wf(),
        1 <= width,
        1 <= height,
        radius <= 255,
        (radius as int) < width as int,
        (radius as int) < height as int,
        (width as int) * (height as int) <= MAX_SIZE,
    ensures
        final(plane).wf(),
        final(plane)@.len() == MAX_SIZE,
        forall|k: int|
            0 <= k < (width as int) * (height as int) ==> final(plane)@[k] == stack_blur_spec(
                old(plane)@,
                width as int,
                height as int,
                radius as int,
            )[k],
        forall|k: int|
            (width as int) * (height as int) <= k < MAX_SIZE ==> final(plane)@[k] == old(
                plane,
            )@[k],
{
    let wd = width as usize;
    let ht = height as usize;
    let rad = radius as usize;
    let mulv = mul_lookup(radius);
    let shg = shg_lookup(radius);
    proof {
        plane.lemma_parts();
    }
    let ghost s0 = plane.buffer@;
    let ghost total: int = (wd as int) * (ht as int);
    let ghost hp = stack_h_pass(s0, wd as int, ht as int, rad as int);
    proof {
        assert(hp.len() == total);
    }
    let mut h: usize = 0;
    while h < ht
        invariant
            h <= ht,
            plane.buffer@ == s0,
            plane.scratch@.len() == MAX_SIZE,
            forall|k: int| 0 <= k < h * wd ==> plane.scratch@[k] == hp[k],
        decreases ht - h,
    {
        proof {
            lemma_mul_le(h + 1, ht as int, wd as int);
            assert((h as int) * (wd as int) + (wd as int) == (h + 1) * (wd as int))
                by (nonlinear_arith);
            vstd::arithmetic::mul::lemma_mul_is_commutative(ht as int, wd as int);
            lemma_mul_le(h as int, ht as int, wd as int);
        }
        let base = h * wd;
        stack_pass_line(&plane.buffer, &mut plane.scratch, base, 1, wd, rad, mulv, shg);
        proof {
            let ghost l = line_of(s0, base as int, 1, wd as int);
            assert forall|k: int| base <= k < base + wd implies plane.scratch@[k] == hp[k] by {
                let i = k - base;
                vstd::arithmetic::div_mod::lemma_fundamental_div_mod_converse(
                    k,
                    wd as int,
                    h as int,
                    i,
                );
                assert(plane.scratch@[base + i * 1] == stack_px(l, rad as int, i));
                assert(row_of(s0, wd as int, h as int) == l);
            }
        }
        h = h + 1;
    }
    proof {
        assert(forall|k: int| 0 <= k < total ==> plane.scratch@[k] == hp[k]);
    }
    let ghost s1 = plane.scratch@;
    let ghost vp = stack_blur_spec(s0, wd as int, ht as int, rad as int);
    let mut w: usize = 0;
    while w < wd
        invariant
            w <= wd,
            plane.scratch@ == s1,
            plane.buffer@.len() == MAX_SIZE,
            forall|k: int| 0 <= k < total && k % (wd as int) < w ==> plane.buffer@[k] == vp[k],
            forall|k: int|
                0 <= k < MAX_SIZE && (k >= total || k % (wd as int) >= w) ==> plane.buffer@[k]
                    == s0[k],
        decreases wd - w,
    {
        proof {
            lemma_mul_le(ht - 1, ht as int, wd as int);
            lemma_mul_le(1, wd as int, ht as int);
            vstd::arithmetic::mul::lemma_mul_is_commutative(ht as int, wd as int);
            assert((ht - 1) * (wd as int) + (wd as int) == (ht as int) * (wd as int))
                by (nonlinear_arith);
        }
        stack_pass_line(&plane.scratch, &mut plane.buffer, w, wd, ht, rad, mulv, shg);
        proof {
            let ghost col = line_of(s1, w as int, wd as int, ht as int);
            assert(col =~= col_of(hp, wd as int, ht as int, w as int)) by {
                assert forall|i: int| 0 <= i < ht implies s1[w + #[trigger] (i * (wd as int))]
                    == hp[w + i * (wd as int)] by {
                    lemma_mul_le(i, ht - 1, wd as int);
                }
            }
            assert forall|k: int| 0 <= k < total && k % (wd as int) == w implies plane.buffer@[k]
                == vp[k] by {
                let i = k / (wd as int);
                vstd::arithmetic::div_mod::lemma_fundamental_div_mod(k, wd as int);
                assert(k == i * (wd as int) + w);
                assert((wd as int) * (ht as int) == total);
                vstd::arithmetic::div_mod::lemma_multiply_divide_lt(k, wd as int, ht as int);
                assert(0 <= i < ht);
                assert(w + i * (wd as int) == k);
                assert(plane.buffer@[w + i * (wd as int)] == stack_px(col, rad as int, i));
                assert(vp[k] == stack_px(
                    col_of(hp, wd as int, ht as int, w as int),
                    rad as int,
                    i,
                ));
            }
            assert forall|k: int| 0 <= k < total && k % (wd as int) < w implies plane.buffer@[k]
                == vp[k] by {
                if k >= w && (k - w) % (wd as int) == 0 {
                    let m = (k - w) / (wd as int);
                    vstd::arithmetic::div_mod::lemma_fundamental_div_mod(k - w, wd as int);
                    vstd::arithmetic::div_mod::lemma_fundamental_div_mod_converse(
                        k,
                        wd as int,
                        m,
                        w as int,
                    );
                    assert(false);
                }
            }
            assert forall|k: int|
                0 <= k < MAX_SIZE && (k >= total || k % (wd as int) > w) implies plane.buffer@[k]
                == s0[k] by {
                if k >= total {
                    assert((wd - 1) + (ht - 1) * (wd as int) < total) by (nonlinear_arith)
                        requires
                            total == (wd as int) * (ht as int),
                            1 <= wd,
                            1 <= ht,
                    ;
                    assert(k > w + (ht - 1) * (wd as int));
                } else {
                    if k >= w && (k - w) % (wd as int) == 0 {
                        let m = (k - w) / (wd as int);
                        vstd::arithmetic::div_mod::lemma_fundamental_div_mod(k - w, wd as int);
                        vstd::arithmetic::div_mod::lemma_fundamental_div_mod_converse(
                            k,
                            wd as int,
                            m,
                            w as int,
                        );
                        assert(k % (wd as int) == w);
                        assert(false);
                    }
                }
            }
        }
        w = w + 1;
    }
    proof {
        assert forall|k: int| 0 <= k < total implies plane.buffer@[k] == vp[k] by {
            vstd::arithmetic::div_mod::lemma_mod_bound(k, wd as int);
        }
        plane.lemma_parts();
    }
}

} // verus!
