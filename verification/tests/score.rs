//! Envelope sampling and autodifference behaviour.

use bpm_estimator::score::{autodifference, sample};
use bpm_estimator::SCALE;

#[test]
fn sample_out_of_range_reads_silence() {
    let env: Vec<i64> = vec![7, 9];
    assert_eq!(sample(&env, -1), 0);
    assert_eq!(sample(&env, -5 * SCALE), 0);
    assert_eq!(sample(&env, 2 * SCALE), 0);
    assert_eq!(sample(&env, 1000 * SCALE), 0);
    assert_eq!(sample(&env, i64::MAX), 0);
}

#[test]
fn sample_floors_fractional_offsets() {
    let env: Vec<i64> = vec![7, 9];
    assert_eq!(sample(&env, 0), 7);
    assert_eq!(sample(&env, SCALE - 1), 7);
    assert_eq!(sample(&env, SCALE), 9);
    assert_eq!(sample(&env, 2 * SCALE - 1), 9);
}

#[test]
fn autodifference_vanishes_on_flat_envelope() {
    // Interval 1.0 at midpoint 100.0: the whole window (out to +-32 beats)
    // stays inside the envelope, so all differences cancel exactly.
    let env: Vec<i64> = vec![1234; 200];
    assert_eq!(autodifference(&env, SCALE, 100 * SCALE), 0);
}

#[test]
fn autodifference_flat_envelope_edge_window() {
    // Near the boundary part of the window reads silence, so a flat but
    // non-zero envelope no longer scores zero: of the beat multiples,
    // +-8, +-16 and +-32 fall outside a ten-slot envelope when sampled
    // around its middle, leaving weight 14/32 of difference 174.
    let env: Vec<i64> = vec![174; 10];
    assert_eq!(autodifference(&env, SCALE, 5 * SCALE), 14);
}

#[test]
fn autodifference_exact_single_cell() {
    // One envelope slot of energy 174, interval 1.0, midpoint 0: all beat
    // multiples read silence (weight 126/32), the positive off-beat
    // offsets still land in slot 0 and the negative ones read silence
    // (weight 24/32), so the score is (126 - 24) * 174 / 174 = 102.
    let env: Vec<i64> = vec![174];
    assert_eq!(autodifference(&env, SCALE, 0), 102);
}

#[test]
fn autodifference_zero_envelope_scores_zero() {
    let env: Vec<i64> = vec![0; 50];
    assert_eq!(autodifference(&env, 3 * SCALE, 25 * SCALE), 0);
    assert_eq!(autodifference(&env, SCALE / 2, 0), 0);
}
