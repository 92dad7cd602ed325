//! Fixed-point sigmoid used by the hit-probability model.
//!
//! The whole crate works in parts per million (ppm), so the logistic curve
//! `1 / (1 + exp(-x))` is computed here with integer arithmetic only: the
//! negative exponential is split into a power of two and a fractional part,
//! and the fractional part is evaluated by an alternating series.  The spec
//! functions mirror the computation step by step; they are the definition of
//! the curve for the rest of the crate.

use vstd::prelude::*;
use crate::UNIT;

verus! {

/// The natural logarithm of 2, in parts per million.
pub const LN2_PPM: u64 = 693_147;

/// Curve inputs saturate at this magnitude (about 20 natural-log units);
/// past it the sigmoid is flat at ppm resolution.
pub const CURVE_SPAN: u64 = 20_000_000;

/// The alternating series for `exp(-r/UNIT)` in ppm, for `0 <= r < LN2_PPM`.
pub open spec fn spec_exp_neg_frac(r: int) -> int {
    let t1 = r;
    let t2 = t1 * r / 2_000_000;
    let t3 = t2 * r / 3_000_000;
    let t4 = t3 * r / 4_000_000;
    let t5 = t4 * r / 5_000_000;
    let t6 = t5 * r / 6_000_000;
    let t7 = t6 * r / 7_000_000;
    (1_000_000 - t1) + (t2 - t3) + (t4 - t5) + (t6 - t7)
}

/// `e` halved `k` times, with truncation at each step.
pub open spec fn spec_halved(e: int, k: int) -> int
    decreases k,
{
    if k <= 0 {
        e
    } else {
        spec_halved(e / 2, k - 1)
    }
}

/// `exp(-y/UNIT)` in ppm: the fractional remainder of `y` modulo ln 2 goes
/// through the series, and the quotient becomes a halving count.
pub open spec fn spec_exp_neg(y: int) -> int {
    spec_halved(spec_exp_neg_frac(y % (LN2_PPM as int)), y / (LN2_PPM as int))
}

/// The logistic curve `UNIT / (1 + exp(-score/scale))` in ppm.  The negative
/// branch is taken by symmetry around `UNIT / 2`.
pub open spec fn spec_logistic(score: int, scale: int) -> int {
    let mag = if score < 0 { -score } else { score };
    let x0 = mag * (UNIT as int) / scale;
    let x = if x0 > CURVE_SPAN as int { CURVE_SPAN as int } else { x0 };
    let upper = 1_000_000_000_000int / (UNIT as int + spec_exp_neg(x));
    if score < 0 {
        UNIT as int - upper
    } else {
        upper
    }
}

proof fn lemma_div_le(a: int, b: int, d: int)
    requires
        0 <= a <= b,
        0 < d,
    ensures
        a / d <= b / d,
        0 <= a / d,
{
    vstd::arithmetic::div_mod::lemma_div_is_ordered(a, b, d);
    vstd::arithmetic::div_mod::lemma_div_pos_is_pos(a, d);
}

/// One series term from the previous one: `t * r / d` never exceeds `t`
/// when `r < d`, and stays non-negative.
proof fn lemma_term_step(t: int, r: int, d: int)
    requires
        0 <= t,
        0 <= r < d,
    ensures
        0 <= t * r / d <= t,
{
    assert(t * r <= t * d) by (nonlinear_arith)
        requires 0 <= t && r <= d;
    assert(0 <= t * r) by (nonlinear_arith)
        requires 0 <= t && 0 <= r;
    lemma_div_le(t * r, t * d, d);
    assert(t * d == d * t) by (nonlinear_arith);
    assert((d * t) / d == t) by {
        vstd::arithmetic::div_mod::lemma_div_multiples_vanish(t, d);
    }
}

/// The series value lies between 0 and one whole.
proof fn lemma_exp_neg_frac_bounds(r: int)
    requires
        0 <= r < LN2_PPM,
    ensures
        0 <= spec_exp_neg_frac(r) <= UNIT,
{
    let t1 = r;
    let t2 = t1 * r / 2_000_000;
    let t3 = t2 * r / 3_000_000;
    let t4 = t3 * r / 4_000_000;
    let t5 = t4 * r / 5_000_000;
    let t6 = t5 * r / 6_000_000;
    let t7 = t6 * r / 7_000_000;
    lemma_term_step(t1, r, 2_000_000);
    lemma_term_step(t2, r, 3_000_000);
    lemma_term_step(t3, r, 4_000_000);
    lemma_term_step(t4, r, 5_000_000);
    lemma_term_step(t5, r, 6_000_000);
    lemma_term_step(t6, r, 7_000_000);
}

/// Halving keeps a value within its old bounds.
proof fn lemma_halved_bounds(e: int, k: int)
    requires
        0 <= e,
    ensures
        0 <= spec_halved(e, k) <= e,
    decreases k,
{
    if k > 0 {
        lemma_halved_bounds(e / 2, k - 1);
    }
}

/// `exp(-y)` in ppm stays within `[0, UNIT]`.
pub proof fn lemma_exp_neg_bounds(y: int)
    requires
        y >= 0,
    ensures
        0 <= spec_exp_neg(y) <= UNIT,
{
    let l = LN2_PPM as int;
    vstd::arithmetic::div_mod::lemma_mod_division_less_than_divisor(y, l);
    vstd::arithmetic::div_mod::lemma_div_pos_is_pos(y, l);
    lemma_exp_neg_frac_bounds(y % l);
    lemma_halved_bounds(spec_exp_neg_frac(y % l), y / l);
}

/// The logistic value is a well-formed probability in ppm.
pub proof fn lemma_logistic_bounds(score: int, scale: int)
    requires
        scale > 0,
    ensures
        0 <= spec_logistic(score, scale) <= UNIT,
{
    let mag = if score < 0 { -score } else { score };
    let x0 = mag * (UNIT as int) / scale;
    let x = if x0 > CURVE_SPAN as int { CURVE_SPAN as int } else { x0 };
    assert(0 <= mag * (UNIT as int)) by (nonlinear_arith)
        requires mag >= 0;
    vstd::arithmetic::div_mod::lemma_div_pos_is_pos(mag * (UNIT as int), scale);
    lemma_exp_neg_bounds(x);
    let e = spec_exp_neg(x);
    lemma_div_le(1_000_000_000_000, 1_000_000_000_000, UNIT as int + e);
    assert(1_000_000_000_000int / (UNIT as int + e) >= 500_000) by {
        vstd::arithmetic::div_mod::lemma_div_is_ordered_by_denominator(
            1_000_000_000_000, UNIT as int + e, 2_000_000);
        assert(1_000_000_000_000int / 2_000_000 == 500_000);
    }
    assert(1_000_000_000_000int / (UNIT as int + e) <= 1_000_000) by {
        vstd::arithmetic::div_mod::lemma_div_is_ordered_by_denominator(
            1_000_000_000_000, 1_000_000, UNIT as int + e);
        assert(1_000_000_000_000int / 1_000_000 == 1_000_000);
    }
}

/// The series for `exp(-r/UNIT)` over one ln-2 interval.
fn exp_neg_frac(r: u64) -> (e: u64)
    requires
        r < LN2_PPM,
    ensures
        e == spec_exp_neg_frac(r as int),
        e <= UNIT,
{
    proof {
        lemma_exp_neg_frac_bounds(r as int);
        lemma_term_step(r as int, r as int, 2_000_000);
        lemma_term_step((r * r / 2_000_000) as int, r as int, 3_000_000);
        lemma_term_step((r * r / 2_000_000 * r / 3_000_000) as int, r as int, 4_000_000);
        lemma_term_step((r * r / 2_000_000 * r / 3_000_000 * r / 4_000_000) as int,
            r as int, 5_000_000);
        lemma_term_step(
            (r * r / 2_000_000 * r / 3_000_000 * r / 4_000_000 * r / 5_000_000) as int,
            r as int, 6_000_000);
        lemma_term_step(
            (r * r / 2_000_000 * r / 3_000_000 * r / 4_000_000 * r / 5_000_000 * r
                / 6_000_000) as int,
            r as int, 7_000_000);
    }
    let t1: u64 = r;
    let t2: u64 = t1 * r / 2_000_000;
    let t3: u64 = t2 * r / 3_000_000;
    let t4: u64 = t3 * r / 4_000_000;
    let t5: u64 = t4 * r / 5_000_000;
    let t6: u64 = t5 * r / 6_000_000;
    let t7: u64 = t6 * r / 7_000_000;
    (1_000_000 - t1) + (t2 - t3) + (t4 - t5) + (t6 - t7)
}

/// `exp(-y/UNIT)` in ppm for saturated curve inputs.
pub fn exp_neg_ppm(y: u64) -> (e: u64)
    requires
        y <= CURVE_SPAN,
    ensures
        e == spec_exp_neg(y as int),
        e <= UNIT,
{
    let k: u64 = y / LN2_PPM;
    let r: u64 = y % LN2_PPM;
    let mut e: u64 = exp_neg_frac(r);
    proof {
        lemma_halved_bounds(e as int, k as int);
    }
    let mut i: u64 = 0;
    while i < k
        invariant
            i <= k,
            e <= UNIT,
            spec_halved(e as int, (k - i) as int) == spec_exp_neg(y as int),
        decreases k - i,
    {
        e = e / 2;
        i = i + 1;
    }
    e
}

/// The logistic curve in ppm, exactly as `spec_logistic` states it.
pub fn logistic_ppm(score: i64, scale: u32) -> (p: u32)
    requires
        scale > 0,
    ensures
        p == spec_logistic(score as int, scale as int),
        p <= UNIT,
{
    proof {
        lemma_logistic_bounds(score as int, scale as int);
    }
    let neg = score < 0;
    let mag: u64 = if neg {
        (-(score as i128)) as u64
    } else {
        score as u64
    };
    let x_wide: u128 = (mag as u128) * (UNIT as u128) / (scale as u128);
    let x: u64 = if x_wide > CURVE_SPAN as u128 {
        CURVE_SPAN
    } else {
        x_wide as u64
    };
    let e: u64 = exp_neg_ppm(x);
    let upper: u64 = 1_000_000_000_000u64 / (UNIT as u64 + e);
    if neg {
        (UNIT as u64 - upper) as u32
    } else {
        upper as u32
    }
}

} // verus!
