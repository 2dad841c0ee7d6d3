//! Interval search engine.
//!
//! The engine spreads `steps` candidate intervals linearly from the slowest
//! tempo's interval down to the fastest tempo's (ascending iteration order is
//! descending interval, so ties favour the longer interval, i.e. the slower
//! tempo), accumulates each candidate's autodifference score over its batch
//! of midpoints, and keeps the first candidate with the strictly lowest
//! total.

use vstd::prelude::*;

verus! {

use crate::AMP_LIMIT;
use crate::INTERVAL_LIMIT;
use crate::MID_LIMIT;
use crate::SCORE_LIMIT;
use crate::score::autodifference;
use crate::score::spec_abs;
use crate::score::spec_autodifference;

/// Largest midpoint batch one candidate may score.
pub const BATCH_LIMIT: u64 = 0x1_0000_0000;

/// The views of a batch list's entries.
pub open spec fn spec_mid_views(mids: Seq<Vec<i64>>) -> Seq<Seq<i64>> {
    Seq::new(mids.len(), |i: int| mids[i]@)
}

/// Distance between neighbouring candidate intervals (non-negative: the
/// candidates descend from `slowest`), rounded toward zero.
pub open spec fn spec_step_mag(slowest: int, fastest: int, steps: int) -> int {
    if steps <= 1 {
        0
    } else {
        (slowest - fastest) / (steps - 1)
    }
}

/// The candidate interval at iteration `i`: the `steps` candidates start at
/// `slowest` and descend by the step magnitude toward `fastest`.
pub open spec fn spec_cand(slowest: int, fastest: int, steps: int, i: int) -> int {
    slowest - i * spec_step_mag(slowest, fastest, steps)
}

/// A candidate's total score: the sum of its autodifference at every
/// midpoint of its batch.
pub open spec fn spec_total(env: Seq<i64>, interval: int, mids: Seq<i64>) -> int
    decreases mids.len(),
{
    if mids.len() <= 0 {
        0
    } else {
        spec_total(env, interval, mids.drop_last()) + spec_autodifference(
            env,
            interval,
            mids.last() as int,
        )
    }
}

/// The total score of the candidate at iteration `i`.
pub open spec fn spec_cand_total(
    env: Seq<i64>,
    slowest: int,
    fastest: int,
    steps: int,
    mids: Seq<Seq<i64>>,
    i: int,
) -> int {
    spec_total(env, spec_cand(slowest, fastest, steps, i), mids[i])
}

/// Index of the winning candidate among the first `n`: a left fold keeping
/// the earliest candidate whose total is strictly below every later one's.
pub open spec fn spec_best_idx(
    env: Seq<i64>,
    slowest: int,
    fastest: int,
    steps: int,
    mids: Seq<Seq<i64>>,
    n: int,
) -> int
    decreases n,
{
    if n <= 1 {
        0
    } else {
        let p = spec_best_idx(env, slowest, fastest, steps, mids, n - 1);
        if spec_cand_total(env, slowest, fastest, steps, mids, n - 1) < spec_cand_total(
            env,
            slowest,
            fastest,
            steps,
            mids,
            p,
        ) {
            n - 1
        } else {
            p
        }
    }
}

/// The winning interval of the whole scan.
pub open spec fn spec_scan(
    env: Seq<i64>,
    slowest: int,
    fastest: int,
    steps: int,
    mids: Seq<Seq<i64>>,
) -> int {
    spec_cand(slowest, fastest, steps, spec_best_idx(env, slowest, fastest, steps, mids, steps))
}

/// The candidate spacing is non-negative and `steps - 1` steps never
/// overshoot the scanned range.
proof fn lemma_step_mag_bounds(slowest: int, fastest: int, steps: int)
    requires
        fastest <= slowest,
        1 <= steps,
    ensures
        0 <= spec_step_mag(slowest, fastest, steps),
        (steps - 1) * spec_step_mag(slowest, fastest, steps) <= slowest - fastest,
{
    if steps <= 1 {
        vstd::arithmetic::mul::lemma_mul_basics(spec_step_mag(slowest, fastest, steps));
    } else {
        vstd::arithmetic::div_mod::lemma_div_pos_is_pos(slowest - fastest, steps - 1);
        vstd::arithmetic::div_mod::lemma_fundamental_div_mod(slowest - fastest, steps - 1);
        vstd::arithmetic::div_mod::lemma_mod_division_less_than_divisor(
            slowest - fastest,
            steps - 1,
        );
    }
}

/// Every candidate of the scan lies between the fastest and the slowest
/// tempo's intervals.
pub proof fn lemma_cand_in_range(slowest: int, fastest: int, steps: int, i: int)
    requires
        fastest <= slowest,
        1 <= steps,
        0 <= i < steps,
    ensures
        0 <= i * spec_step_mag(slowest, fastest, steps) <= slowest - fastest,
        fastest <= spec_cand(slowest, fastest, steps, i) <= slowest,
{
    let m = spec_step_mag(slowest, fastest, steps);
    lemma_step_mag_bounds(slowest, fastest, steps);
    vstd::arithmetic::mul::lemma_mul_nonnegative(i, m);
    vstd::arithmetic::mul::lemma_mul_inequality(i, steps - 1, m);
}

/// Law: the scan's winner is the first candidate attaining the minimum
/// total score. The winning index is in range, no candidate scores strictly
/// below it, and every earlier candidate scores strictly above it (a tie is
/// kept by the earlier, slower-tempo candidate).
pub proof fn lemma_scan_picks_first_minimum(
    env: Seq<i64>,
    slowest: int,
    fastest: int,
    steps: int,
    mids: Seq<Seq<i64>>,
    n: int,
)
    requires
        1 <= n,
    ensures
        0 <= spec_best_idx(env, slowest, fastest, steps, mids, n) < n,
        forall|k: int|
            0 <= k < n ==> #[trigger] spec_cand_total(env, slowest, fastest, steps, mids, k)
                >= spec_cand_total(
                env,
                slowest,
                fastest,
                steps,
                mids,
                spec_best_idx(env, slowest, fastest, steps, mids, n),
            ),
        forall|k: int|
            0 <= k < spec_best_idx(env, slowest, fastest, steps, mids, n)
                ==> #[trigger] spec_cand_total(env, slowest, fastest, steps, mids, k)
                > spec_cand_total(
                env,
                slowest,
                fastest,
                steps,
                mids,
                spec_best_idx(env, slowest, fastest, steps, mids, n),
            ),
    decreases n,
{
    if n > 1 {
        lemma_scan_picks_first_minimum(env, slowest, fastest, steps, mids, n - 1);
    }
}

/// Sum a candidate's autodifference scores over its batch of midpoints.
fn total_for(env: &Vec<i64>, interval: i64, ms: &Vec<i64>) -> (t: i128)
    requires
        forall|i: int| 0 <= i < env@.len() ==> spec_abs(env@[i] as int) <= AMP_LIMIT as int,
        0 <= interval <= INTERVAL_LIMIT,
        forall|j: int| 0 <= j < ms@.len() ==> 0 <= #[trigger] ms@[j] <= MID_LIMIT,
        ms@.len() <= BATCH_LIMIT,
    ensures
        t as int == spec_total(env@, interval as int, ms@),
        spec_abs(t as int) <= ms@.len() * (SCORE_LIMIT as int),
{
    let mut acc: i128 = 0;
    let mut j: usize = 0;
    while j < ms.len()
        invariant
            forall|i: int| 0 <= i < env@.len() ==> spec_abs(env@[i] as int) <= AMP_LIMIT as int,
            0 <= interval <= INTERVAL_LIMIT,
            forall|jj: int| 0 <= jj < ms@.len() ==> 0 <= #[trigger] ms@[jj] <= MID_LIMIT,
            ms@.len() <= BATCH_LIMIT,
            0 <= j <= ms@.len(),
            acc as int == spec_total(env@, interval as int, ms@.take(j as int)),
            spec_abs(acc as int) <= j * (SCORE_LIMIT as int),
        decreases ms@.len() - j as int,
    {
        let s: i64 = autodifference(env, interval, ms[j]);
        proof {
            assert(ms@.take(j as int + 1).drop_last() =~= ms@.take(j as int));
            assert(ms@.take(j as int + 1).last() == ms@[j as int]);
        }
        acc = acc + (s as i128);
        j = j + 1;
    }
    proof {
        assert(ms@.take(ms@.len() as int) =~= ms@);
    }
    acc
}

/// Scan all candidate intervals and return the winner: the first candidate,
/// in descending-interval order from `slowest`, whose total autodifference
/// over its midpoint batch is strictly the lowest.
pub fn scan_intervals(
    env: &Vec<i64>,
    slowest: i64,
    fastest: i64,
    steps: u32,
    mids: &Vec<Vec<i64>>,
) -> (w: i64)
    requires
        forall|i: int| 0 <= i < env@.len() ==> spec_abs(env@[i] as int) <= AMP_LIMIT as int,
        1 <= fastest <= slowest <= INTERVAL_LIMIT,
        1 <= steps,
        mids@.len() == steps as int,
        forall|i: int| 0 <= i < mids@.len() ==> #[trigger] mids@[i]@.len() <= BATCH_LIMIT,
        forall|i: int, j: int|
            0 <= i < mids@.len() && 0 <= j < mids@[i]@.len() ==> 0 <= #[trigger] mids@[i]@[j]
                <= MID_LIMIT,
    ensures
        w as int == spec_scan(
            env@,
            slowest as int,
            fastest as int,
            steps as int,
            spec_mid_views(mids@),
        ),
        fastest <= w <= slowest,
{
    let ghost views = spec_mid_views(mids@);
    let stepmag: i64 = if steps <= 1 {
        0
    } else {
        (slowest - fastest) / ((steps - 1) as i64)
    };
    proof {
        assert(stepmag == spec_step_mag(slowest as int, fastest as int, steps as int));
        vstd::arithmetic::mul::lemma_mul_basics(stepmag as int);
        assert(views[0] == mids@[0]@);
    }
    let mut best_t: i128 = total_for(env, slowest, &mids[0]);
    let mut best_w: i64 = slowest;
    let mut i: u32 = 1;
    while i < steps
        invariant
            forall|t: int| 0 <= t < env@.len() ==> spec_abs(env@[t] as int) <= AMP_LIMIT as int,
            1 <= fastest <= slowest <= INTERVAL_LIMIT,
            1 <= steps,
            mids@.len() == steps as int,
            forall|t: int| 0 <= t < mids@.len() ==> #[trigger] mids@[t]@.len() <= BATCH_LIMIT,
            forall|t: int, j: int|
                0 <= t < mids@.len() && 0 <= j < mids@[t]@.len() ==> 0 <= #[trigger] mids@[t]@[j]
                    <= MID_LIMIT,
            views == spec_mid_views(mids@),
            1 <= i <= steps,
            stepmag == spec_step_mag(slowest as int, fastest as int, steps as int),
            best_t as int == spec_cand_total(
                env@,
                slowest as int,
                fastest as int,
                steps as int,
                views,
                spec_best_idx(env@, slowest as int, fastest as int, steps as int, views, i as int),
            ),
            best_w as int == spec_cand(
                slowest as int,
                fastest as int,
                steps as int,
                spec_best_idx(env@, slowest as int, fastest as int, steps as int, views, i as int),
            ),
        decreases steps - i,
    {
        proof {
            lemma_cand_in_range(slowest as int, fastest as int, steps as int, i as int);
            assert(views[i as int] == mids@[i as int]@);
        }
        let cand: i64 = slowest - (i as i64) * stepmag;
        let t: i128 = total_for(env, cand, &mids[i as usize]);
        if t < best_t {
            best_t = t;
            best_w = cand;
        }
        i = i + 1;
    }
    proof {
        lemma_scan_picks_first_minimum(
            env@,
            slowest as int,
            fastest as int,
            steps as int,
            views,
            steps as int,
        );
        lemma_cand_in_range(
            slowest as int,
            fastest as int,
            steps as int,
            spec_best_idx(env@, slowest as int, fastest as int, steps as int, views, steps as int),
        );
    }
    best_w
}

} // verus!
