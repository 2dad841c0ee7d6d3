//! Envelope sampling and the autodifference metric.
//!
//! `sample` reads one energy value at a fractional envelope offset, treating
//! any out-of-range offset as silence. `autodifference` scores how well a
//! candidate interval/midpoint pair matches beat-periodic structure: energy
//! at whole beat multiples of the interval should match the midpoint's
//! energy, while energy at fractional off-beat offsets should differ.

use vstd::prelude::*;

verus! {

use crate::AMP_LIMIT;
use crate::INTERVAL_LIMIT;
use crate::MID_LIMIT;
use crate::SCALE;
use crate::SCORE_LIMIT;

/// Magnitude of a mathematical integer.
pub open spec fn spec_abs(x: int) -> int {
    if x < 0 {
        -x
    } else {
        x
    }
}

/// Division truncating toward zero (the machine's signed division), for a
/// positive divisor.
pub open spec fn spec_div_trunc(n: int, d: int) -> int {
    if n >= 0 {
        n / d
    } else {
        -((-n) / d)
    }
}

/// Whether a fixed-point offset lands on an envelope slot: the sampling rule
/// returns a stored energy exactly on these offsets.
pub open spec fn spec_in_range(len: int, offset: int) -> bool {
    0 <= offset && offset / (SCALE as int) < len
}

/// The sampling rule: floor the fixed-point offset to an envelope index and
/// read it; any out-of-range offset reads as silence, never as an error.
pub open spec fn spec_sample(env: Seq<i64>, offset: int) -> int {
    if spec_in_range(env.len() as int, offset) {
        env[offset / (SCALE as int)] as int
    } else {
        0
    }
}

/// Read the envelope energy at a fractional offset.
///
/// Out-of-range offsets (negative, or at or past the envelope's end) yield
/// zero: the signal is treated as silent outside its extent.
pub fn sample(env: &Vec<i64>, offset: i64) -> (r: i64)
    ensures
        r as int == spec_sample(env@, offset as int),
        (offset < 0 || offset as int / (SCALE as int) >= env@.len()) ==> r == 0,
{
    if offset < 0 {
        0
    } else {
        let n: i64 = offset / SCALE;
        if (n as u64) < (env.len() as u64) {
            env[n as usize]
        } else {
            0
        }
    }
}

/// Absolute difference between the envelope energy at an offset and a
/// reference energy.
pub open spec fn spec_sample_diff(env: Seq<i64>, offset: int, v: int) -> int {
    spec_abs(spec_sample(env, offset) - v)
}

/// Weighted sum of energy differences at the twelve whole beat multiples
/// `{-32, -16, -8, -4, -2, -1, 1, 2, 4, 8, 16, 32}` of the interval, each
/// weighted by `1/|multiple|`; scaled by 32 so every weight is an integer.
pub open spec fn spec_beat_sum(env: Seq<i64>, interval: int, mid: int, v: int) -> int {
    32 * (spec_sample_diff(env, mid + interval, v) + spec_sample_diff(env, mid - interval, v)) + 16
        * (spec_sample_diff(env, mid + 2 * interval, v) + spec_sample_diff(
        env,
        mid - 2 * interval,
        v,
    )) + 8 * (spec_sample_diff(env, mid + 4 * interval, v) + spec_sample_diff(
        env,
        mid - 4 * interval,
        v,
    )) + 4 * (spec_sample_diff(env, mid + 8 * interval, v) + spec_sample_diff(
        env,
        mid - 8 * interval,
        v,
    )) + 2 * (spec_sample_diff(env, mid + 16 * interval, v) + spec_sample_diff(
        env,
        mid - 16 * interval,
        v,
    )) + 1 * (spec_sample_diff(env, mid + 32 * interval, v) + spec_sample_diff(
        env,
        mid - 32 * interval,
        v,
    ))
}

/// Weighted sum of energy differences at the four fractional off-beat
/// offsets `{-1/2, -1/4, 1/4, 1/2}` of the interval, each weighted by the
/// offset's magnitude; scaled by 32 so every weight is an integer.
pub open spec fn spec_offbeat_sum(env: Seq<i64>, interval: int, mid: int, v: int) -> int {
    8 * (spec_sample_diff(env, mid + interval / 4, v) + spec_sample_diff(
        env,
        mid - interval / 4,
        v,
    )) + 16 * (spec_sample_diff(env, mid + interval / 2, v) + spec_sample_diff(
        env,
        mid - interval / 2,
        v,
    ))
}

/// The autodifference score of one interval/midpoint pair: beat-aligned
/// differences count against the candidate, off-beat differences count in
/// its favour, and the total is normalized by the combined weight `174/32`.
/// Lower is better.
pub open spec fn spec_autodifference(env: Seq<i64>, interval: int, mid: int) -> int {
    let v = spec_sample(env, mid);
    spec_div_trunc(spec_beat_sum(env, interval, mid, v) - spec_offbeat_sum(env, interval, mid, v), 174)
}

/// Score how strongly the envelope around `mid` exhibits beat-periodic
/// structure with period `interval` (both fixed point). Lower is better.
pub fn autodifference(env: &Vec<i64>, interval: i64, mid: i64) -> (r: i64)
    requires
        forall|i: int| 0 <= i < env@.len() ==> spec_abs(env@[i] as int) <= AMP_LIMIT as int,
        0 <= interval <= INTERVAL_LIMIT,
        0 <= mid <= MID_LIMIT,
    ensures
        r as int == spec_autodifference(env@, interval as int, mid as int),
        spec_abs(r as int) <= SCORE_LIMIT as int,
{
    let v: i64 = sample(env, mid);
    proof {
        lemma_sample_bounded(env@, mid as int);
    }
    let quarter: i64 = interval / 4;
    let half: i64 = interval / 2;

    let bd: i64 = 32 * (diff_at(env, mid + interval, v) + diff_at(env, mid - interval, v)) + 16 * (
    diff_at(env, mid + 2 * interval, v) + diff_at(env, mid - 2 * interval, v)) + 8 * (diff_at(
        env,
        mid + 4 * interval,
        v,
    ) + diff_at(env, mid - 4 * interval, v)) + 4 * (diff_at(env, mid + 8 * interval, v) + diff_at(
        env,
        mid - 8 * interval,
        v,
    )) + 2 * (diff_at(env, mid + 16 * interval, v) + diff_at(env, mid - 16 * interval, v)) + 1 * (
    diff_at(env, mid + 32 * interval, v) + diff_at(env, mid - 32 * interval, v));

    let nd: i64 = 8 * (diff_at(env, mid + quarter, v) + diff_at(env, mid - quarter, v)) + 16 * (
    diff_at(env, mid + half, v) + diff_at(env, mid - half, v));

    let num: i64 = bd - nd;
    proof {
        lemma_div_trunc_bound(num as int, 174, 2 * AMP_LIMIT as int);
    }
    if num >= 0 {
        num / 174
    } else {
        -((-num) / 174)
    }
}

/// Whether every offset the metric reads for an interval/midpoint pair
/// lands on an envelope slot: the midpoint itself, the twelve whole beat
/// multiples, and the four fractional off-beat offsets.
pub open spec fn spec_window_in_range(len: int, interval: int, mid: int) -> bool {
    &&& spec_in_range(len, mid)
    &&& spec_in_range(len, mid + interval)
    &&& spec_in_range(len, mid - interval)
    &&& spec_in_range(len, mid + 2 * interval)
    &&& spec_in_range(len, mid - 2 * interval)
    &&& spec_in_range(len, mid + 4 * interval)
    &&& spec_in_range(len, mid - 4 * interval)
    &&& spec_in_range(len, mid + 8 * interval)
    &&& spec_in_range(len, mid - 8 * interval)
    &&& spec_in_range(len, mid + 16 * interval)
    &&& spec_in_range(len, mid - 16 * interval)
    &&& spec_in_range(len, mid + 32 * interval)
    &&& spec_in_range(len, mid - 32 * interval)
    &&& spec_in_range(len, mid + interval / 4)
    &&& spec_in_range(len, mid - interval / 4)
    &&& spec_in_range(len, mid + interval / 2)
    &&& spec_in_range(len, mid - interval / 2)
}

/// Law: on a perfectly flat envelope the autodifference vanishes for any
/// interval and midpoint whose sampling window stays within the envelope:
/// every read yields the same energy, so every difference cancels exactly.
pub proof fn lemma_autodifference_flat(env: Seq<i64>, interval: int, mid: int, c: i64)
    requires
        forall|i: int| 0 <= i < env.len() ==> env[i] == c,
        spec_window_in_range(env.len() as int, interval, mid),
    ensures
        spec_autodifference(env, interval, mid) == 0,
{
    assert forall|off: int|
        spec_in_range(env.len() as int, off) implies spec_sample(env, off) == c as int by {
        assert(env[off / (SCALE as int)] == c);
    };
    assert(spec_beat_sum(env, interval, mid, c as int) == 0);
    assert(spec_offbeat_sum(env, interval, mid, c as int) == 0);
}

/// The energy read anywhere in a bounded envelope is itself bounded.
proof fn lemma_sample_bounded(env: Seq<i64>, offset: int)
    requires
        forall|i: int| 0 <= i < env.len() ==> spec_abs(env[i] as int) <= AMP_LIMIT as int,
    ensures
        spec_abs(spec_sample(env, offset)) <= AMP_LIMIT as int,
{
    if spec_in_range(env.len() as int, offset) {
        assert(spec_abs(env[offset / (SCALE as int)] as int) <= AMP_LIMIT as int);
    }
}

/// `|sample(env, offset) - v|`, the building block of the metric.
fn diff_at(env: &Vec<i64>, offset: i64, v: i64) -> (r: i64)
    requires
        forall|i: int| 0 <= i < env@.len() ==> spec_abs(env@[i] as int) <= AMP_LIMIT as int,
        spec_abs(v as int) <= AMP_LIMIT as int,
    ensures
        r as int == spec_sample_diff(env@, offset as int, v as int),
        0 <= r <= 2 * AMP_LIMIT,
{
    let y: i64 = sample(env, offset);
    proof {
        lemma_sample_bounded(env@, offset as int);
    }
    if y >= v {
        y - v
    } else {
        v - y
    }
}

/// Truncating division shrinks a bounded numerator: with `|n| <= 174 * b`,
/// the quotient by 174 stays within `b` in magnitude.
proof fn lemma_div_trunc_bound(n: int, d: int, b: int)
    requires
        d >= 1,
        0 <= b,
        spec_abs(n) <= d * b,
    ensures
        spec_abs(spec_div_trunc(n, d)) <= b,
{
    if n >= 0 {
        vstd::arithmetic::div_mod::lemma_div_is_ordered(n, d * b, d);
        vstd::arithmetic::div_mod::lemma_div_multiples_vanish(b, d);
        vstd::arithmetic::div_mod::lemma_div_pos_is_pos(n, d);
    } else {
        vstd::arithmetic::div_mod::lemma_div_is_ordered(-n, d * b, d);
        vstd::arithmetic::div_mod::lemma_div_multiples_vanish(b, d);
        vstd::arithmetic::div_mod::lemma_div_pos_is_pos(-n, d);
    }
}

} // verus!
