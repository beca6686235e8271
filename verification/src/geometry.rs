//! Rational arithmetic for dimension planning: round-to-nearest division
//! and aspect-preserving fitting of one rectangle inside another.

use vstd::prelude::*;

verus! {

/// `a / b` rounded to the nearest integer, halves rounded up.
/// Requires `a >= 0` and `b > 0` to be meaningful.
pub open spec fn round_ratio(a: int, b: int) -> int {
    (2 * a + b) / (2 * b)
}

/// Clamp a dimension to at least one pixel: resizing never produces a
/// zero-sized output.
pub open spec fn clamp1(v: int) -> int {
    if v < 1 {
        1
    } else {
        v
    }
}

/// The dimensions of the largest aspect-preserving scaling of an `ow x oh`
/// image that fits inside a `bw x bh` box: the tighter axis is hit exactly,
/// the other is scaled by the same ratio and rounded to nearest.
pub open spec fn fit_dims(ow: int, oh: int, bw: int, bh: int) -> (int, int) {
    if bw * oh <= bh * ow {
        (bw, clamp1(round_ratio(oh * bw, ow)))
    } else {
        (clamp1(round_ratio(ow * bh, oh)), bh)
    }
}

/// Round-to-nearest division truly lies within half a unit of the exact
/// quotient: `b * (round_ratio(a, b)) - a` is in `(-b/2, b/2]`.
pub proof fn lemma_round_ratio_bounds(a: int, b: int)
    requires
        a >= 0,
        b > 0,
    ensures
        a <= b * round_ratio(a, b) + b / 2,
        b * round_ratio(a, b) <= a + b / 2,
        round_ratio(a, b) >= 0,
{
    let q = round_ratio(a, b);
    let m = 2 * a + b;
    let d = 2 * b;
    let r = m % d;
    vstd::arithmetic::div_mod::lemma_fundamental_div_mod(m, d);
    vstd::arithmetic::div_mod::lemma_mod_bound(m, d);
    vstd::arithmetic::div_mod::lemma_div_pos_is_pos(m, d);
    assert(m == d * q + r);
    assert(d * q == 2 * (b * q)) by (nonlinear_arith)
        requires
            d == 2 * b,
    ;
    vstd::arithmetic::div_mod::lemma_fundamental_div_mod(b, 2);
    vstd::arithmetic::div_mod::lemma_mod_bound(b, 2);
    assert(b == 2 * (b / 2) + b % 2);
    assert(2 * a + b == 2 * (b * q) + r);
    assert(2 * a <= 2 * (b * q) + 2 * (b / 2));
    assert(2 * (b * q) <= 2 * (a + b / 2) + 1);
}

/// Rounding a quotient with a positive divisor can exceed the dividend by at
/// most one.
pub proof fn lemma_round_ratio_le_plus1(a: int, b: int)
    requires
        a >= 0,
        b > 0,
    ensures
        round_ratio(a, b) <= a + 1,
{
    lemma_round_ratio_bounds(a, b);
    let q = round_ratio(a, b);
    if q >= a + 2 {
        assert(b * q >= b * (a + 2)) by (nonlinear_arith)
            requires
                b > 0,
                q >= a + 2,
        ;
        assert(b * (a + 2) >= a + 2 * b) by (nonlinear_arith)
            requires
                b >= 1,
                a >= 0,
        ;
        assert(false);
    }
}

/// Scaling a dimension down by a proper fraction `num/den` never enlarges it.
pub proof fn lemma_round_ratio_shrinks(d: int, num: int, den: int)
    requires
        d >= 1,
        0 < num < den,
        2 * num <= den,
    ensures
        round_ratio(d * num, den) <= d,
        round_ratio(d * num, den) >= 0,
{
    let a = d * num;
    let b = den;
    assert(a >= 0) by (nonlinear_arith)
        requires
            d >= 1,
            num > 0,
            a == d * num,
    ;
    lemma_round_ratio_bounds(a, b);
    assert(b * round_ratio(a, b) <= a + b / 2);
    assert(a + b / 2 <= d * den) by (nonlinear_arith)
        requires
            a == d * num,
            2 * num <= den,
            d >= 1,
            den > 0,
            b == den,
    ;
    assert(b * round_ratio(a, b) <= b * d);
    assert(round_ratio(a, b) <= d) by (nonlinear_arith)
        requires
            b > 0,
            b * round_ratio(a, b) <= b * d,
    ;
    vstd::arithmetic::div_mod::lemma_div_pos_is_pos(2 * a + b, 2 * b);
}

/// Exec form of `round_ratio` over wide intermediates, so that products of
/// 32-bit dimensions cannot overflow.
pub fn round_ratio_u64(a: u64, b: u64) -> (r: u64)
    requires
        b > 0,
        round_ratio(a as int, b as int) <= u64::MAX,
    ensures
        r == round_ratio(a as int, b as int),
{
    let wa: u128 = a as u128;
    let wb: u128 = b as u128;
    let q: u128 = (2 * wa + wb) / (2 * wb);
    proof {
        vstd::arithmetic::div_mod::lemma_div_pos_is_pos(2 * (a as int) + b as int, 2 * (b as int));
    }
    q as u64
}

/// The fitted dimensions stay inside the box and are never zero.
pub proof fn lemma_fit_dims_in_box(ow: int, oh: int, bw: int, bh: int)
    requires
        ow >= 1,
        oh >= 1,
        bw >= 1,
        bh >= 1,
    ensures
        1 <= fit_dims(ow, oh, bw, bh).0 <= bw,
        1 <= fit_dims(ow, oh, bw, bh).1 <= bh,
{
    if bw * oh <= bh * ow {
        let a = oh * bw;
        lemma_round_ratio_bounds(a, ow);
        let q = round_ratio(a, ow);
        assert(ow * q <= a + ow / 2);
        assert(a + ow / 2 < ow * (bh + 1)) by (nonlinear_arith)
            requires
                a == oh * bw,
                bw * oh <= bh * ow,
                ow >= 1,
        ;
        assert(q <= bh) by (nonlinear_arith)
            requires
                ow >= 1,
                ow * q < ow * (bh + 1),
        ;
    } else {
        let a = ow * bh;
        lemma_round_ratio_bounds(a, oh);
        let q = round_ratio(a, oh);
        assert(oh * q <= a + oh / 2);
        assert(a + oh / 2 < oh * (bw + 1)) by (nonlinear_arith)
            requires
                a == ow * bh,
                bh * ow < bw * oh,
                oh >= 1,
        ;
        assert(q <= bw) by (nonlinear_arith)
            requires
                oh >= 1,
                oh * q < oh * (bw + 1),
        ;
    }
}

/// Exec computation of `fit_dims` for 32-bit dimensions.
pub fn fit_dims_u32(ow: u32, oh: u32, bw: u32, bh: u32) -> (r: (u32, u32))
    requires
        ow >= 1,
        oh >= 1,
        bw >= 1,
        bh >= 1,
    ensures
        (r.0 as int, r.1 as int) == fit_dims(ow as int, oh as int, bw as int, bh as int),
        1 <= r.0 <= bw,
        1 <= r.1 <= bh,
{
    proof {
        lemma_fit_dims_in_box(ow as int, oh as int, bw as int, bh as int);
    }
    proof {
        vstd::arithmetic::mul::lemma_mul_upper_bound(bw as int, u32::MAX as int, oh as int, u32::MAX as int);
        vstd::arithmetic::mul::lemma_mul_upper_bound(bh as int, u32::MAX as int, ow as int, u32::MAX as int);
        vstd::arithmetic::mul::lemma_mul_upper_bound(oh as int, u32::MAX as int, bw as int, u32::MAX as int);
        vstd::arithmetic::mul::lemma_mul_upper_bound(ow as int, u32::MAX as int, bh as int, u32::MAX as int);
    }
    let cross_w: u64 = (bw as u64) * (oh as u64);
    let cross_h: u64 = (bh as u64) * (ow as u64);
    if cross_w <= cross_h {
        let q: u64 = round_ratio_u64((oh as u64) * (bw as u64), ow as u64);
        let d: u32 = if q < 1 {
            1
        } else {
            q as u32
        };
        (bw, d)
    } else {
        let q: u64 = round_ratio_u64((ow as u64) * (bh as u64), oh as u64);
        let d: u32 = if q < 1 {
            1
        } else {
            q as u32
        };
        (d, bh)
    }
}

} // verus!
