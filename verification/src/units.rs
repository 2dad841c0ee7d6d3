//! Conversion between tempo and envelope-space interval.
//!
//! A tempo of `x` beats per minute spans `rate / (x / 60)` raw samples per
//! beat, or `rate * 60 / (x * stride)` envelope samples. The same formula
//! converts an interval back to a tempo, and the two directions are inverses
//! of one another up to rounding: [`lemma_tempo_round_trip`] bounds the
//! round-trip error by one part in a thousand.

use vstd::prelude::*;

verus! {

use crate::RATE_LIMIT;
use crate::SCALE;
use crate::STRIDE_LIMIT;

/// The conversion's common numerator: one minute of samples, fixed point.
pub open spec fn spec_tempo_numer(rate: int) -> int {
    rate * 60 * (SCALE as int)
}

/// Convert a tempo to an envelope-space interval, or an interval back to a
/// tempo (all fixed point): `rate * 60 / (x * stride)`, rounded down.
pub open spec fn spec_convert(rate: int, stride: int, x: int) -> int {
    spec_tempo_numer(rate) / (x * stride)
}

/// A tempo converted to an interval and back.
pub open spec fn spec_round_trip(rate: int, stride: int, x: int) -> int {
    spec_convert(rate, stride, spec_convert(rate, stride, x))
}

/// Shared executable conversion between tempo and interval.
pub(crate) fn convert_units(rate: i64, stride: u64, x: i64) -> (r: i64)
    requires
        1 <= rate <= RATE_LIMIT,
        1 <= stride <= STRIDE_LIMIT,
        1 <= x,
    ensures
        r as int == spec_convert(rate as int, stride as int, x as int),
        0 <= r as int <= spec_tempo_numer(rate as int),
{
    proof {
        vstd::arithmetic::mul::lemma_mul_upper_bound(
            x as int,
            i64::MAX as int,
            stride as int,
            STRIDE_LIMIT as int,
        );
        vstd::arithmetic::mul::lemma_mul_inequality(1, x as int, stride as int);
        vstd::arithmetic::mul::lemma_mul_basics(stride as int);
        assert((rate as int) * 60 * (SCALE as int) <= (RATE_LIMIT as int) * 60 * (SCALE as int))
            by (nonlinear_arith)
            requires
                1 <= rate <= RATE_LIMIT as int,
        ;
    }
    let num: i128 = (rate as i128) * 60 * (SCALE as i128);
    let den: i128 = (x as i128) * (stride as i128);
    let q: i128 = num / den;
    proof {
        vstd::arithmetic::div_mod::lemma_div_pos_is_pos(num as int, den as int);
        vstd::arithmetic::div_mod::lemma_div_nonincreasing(num as int, den as int);
    }
    q as i64
}

/// A faster tempo maps to a shorter envelope interval, and a longer interval
/// back to a slower tempo: the conversion reverses order.
pub proof fn lemma_convert_antitone(rate: int, stride: int, x1: int, x2: int)
    requires
        0 <= rate,
        1 <= stride,
        1 <= x1 <= x2,
    ensures
        spec_convert(rate, stride, x2) <= spec_convert(rate, stride, x1),
{
    vstd::arithmetic::mul::lemma_mul_inequality(x1, x2, stride);
    vstd::arithmetic::mul::lemma_mul_inequality(1, x1, stride);
    vstd::arithmetic::mul::lemma_mul_basics(stride);
    vstd::arithmetic::div_mod::lemma_div_is_ordered_by_denominator(
        spec_tempo_numer(rate),
        x1 * stride,
        x2 * stride,
    );
}

/// Converting a tempo to an interval and back never undershoots the tempo:
/// both divisions round down, and rounding the denominator down can only
/// push the quotient up.
pub proof fn lemma_round_trip_lower(rate: int, stride: int, x: int)
    requires
        1 <= rate,
        1 <= stride,
        1 <= x,
        1 <= spec_convert(rate, stride, x),
    ensures
        x <= spec_round_trip(rate, stride, x),
{
    let d = spec_tempo_numer(rate);
    let q = spec_convert(rate, stride, x);
    let xs = x * stride;
    let qs = q * stride;
    assert(1 <= x * stride) by (nonlinear_arith)
        requires
            1 <= x,
            1 <= stride,
    ;
    assert(1 <= q * stride) by (nonlinear_arith)
        requires
            1 <= q,
            1 <= stride,
    ;
    vstd::arithmetic::div_mod::lemma_fundamental_div_mod(d, xs);
    vstd::arithmetic::div_mod::lemma_mod_division_less_than_divisor(d, xs);
    let r1 = d % xs;
    assert(d == xs * q + r1);
    assert(x * qs <= d) by (nonlinear_arith)
        requires
            d == xs * q + r1,
            0 <= r1,
            xs == x * stride,
            qs == q * stride,
    ;
    vstd::arithmetic::div_mod::lemma_div_is_ordered(x * qs, d, qs);
    vstd::arithmetic::div_mod::lemma_div_by_multiple(x, qs);
}

/// Core round-trip bound: wherever the forward conversion yields at least a
/// thousand fixed-point units, converting back overshoots the original value
/// by at most one part in a thousand, and never undershoots it.
pub proof fn lemma_unit_round_trip(rate: int, stride: int, x: int)
    requires
        1 <= rate,
        1 <= stride,
        1 <= x,
        1000 <= spec_convert(rate, stride, x),
    ensures
        x <= spec_round_trip(rate, stride, x),
        1000 * spec_round_trip(rate, stride, x) <= 1001 * x,
{
    lemma_round_trip_lower(rate, stride, x);
    let d = spec_tempo_numer(rate);
    let q = spec_convert(rate, stride, x);
    let rt = spec_round_trip(rate, stride, x);
    let xs = x * stride;
    let qs = q * stride;
    assert(1 <= x * stride) by (nonlinear_arith)
        requires
            1 <= x,
            1 <= stride,
    ;
    assert(1 <= q * stride) by (nonlinear_arith)
        requires
            1000 <= q,
            1 <= stride,
    ;
    vstd::arithmetic::div_mod::lemma_fundamental_div_mod(d, xs);
    vstd::arithmetic::div_mod::lemma_mod_division_less_than_divisor(d, xs);
    let r1 = d % xs;
    assert(d == xs * q + r1);
    vstd::arithmetic::div_mod::lemma_fundamental_div_mod(d, qs);
    vstd::arithmetic::div_mod::lemma_mod_division_less_than_divisor(d, qs);
    let r2 = d % qs;
    assert(d == qs * rt + r2);
    assert(rt * q < (q + 1) * x) by (nonlinear_arith)
        requires
            d == qs * rt + r2,
            0 <= r2,
            d == xs * q + r1,
            r1 < xs,
            xs == x * stride,
            qs == q * stride,
            1 <= stride,
            1 <= q,
    ;
    assert(1000 * rt <= 1001 * x) by (nonlinear_arith)
        requires
            rt * q < (q + 1) * x,
            1000 <= q,
            1 <= x,
            x <= rt,
    ;
}

/// Law: for any valid configuration whose fastest tempo still maps to an
/// interval of at least a thousand fixed-point units, converting any tempo
/// in the configured range to an interval and back yields a value within
/// one part in a thousand above the original, and never below it.
pub proof fn lemma_tempo_round_trip(rate: int, stride: int, lower: int, upper: int, x: int)
    requires
        1 <= rate,
        1 <= stride,
        1 <= lower,
        lower <= x <= upper,
        1000 <= spec_convert(rate, stride, upper),
    ensures
        x <= spec_round_trip(rate, stride, x),
        1000 * spec_round_trip(rate, stride, x) <= 1001 * x,
{
    lemma_convert_antitone(rate, stride, x, upper);
    lemma_unit_round_trip(rate, stride, x);
}

} // verus!
