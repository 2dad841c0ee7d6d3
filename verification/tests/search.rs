//! Interval search behaviour.

use bpm_estimator::search::scan_intervals;
use bpm_estimator::SCALE;

fn spread_midpoints(rows: usize, count: usize) -> Vec<Vec<i64>> {
    let mut mids: Vec<Vec<i64>> = Vec::new();
    for _ in 0..rows {
        let mut row: Vec<i64> = Vec::new();
        for j in 0..count {
            let whole: i64 = 1500 + ((j as i64) * 37) % 1000;
            let frac: i64 = ((j as i64) % 4) * (SCALE / 4);
            row.push(whole * SCALE + frac);
        }
        mids.push(row);
    }
    mids
}

#[test]
fn scan_ties_keep_the_first_slowest_candidate() {
    // A silent envelope scores every candidate identically; the strict
    // less-than fold keeps the first candidate, the slowest tempo's
    // (longest) interval.
    let env: Vec<i64> = vec![0; 100];
    let mids: Vec<Vec<i64>> = vec![vec![3 * SCALE; 4]; 31];
    let w = scan_intervals(&env, 40 * SCALE, 10 * SCALE, 31, &mids);
    assert_eq!(w, 40 * SCALE);
}

#[test]
fn scan_finds_impulse_train_period() {
    // An impulse train with period 20 envelope slots; 31 candidates from
    // 40.0 down to 10.0 step exactly 1.0. The winner must land within one
    // step of the true period or of its natural harmonics (half or double).
    let env: Vec<i64> = (0..4000).map(|i| if i % 20 == 0 { 65536 } else { 0 }).collect();
    let mids = spread_midpoints(31, 64);
    let w = scan_intervals(&env, 40 * SCALE, 10 * SCALE, 31, &mids);
    let near = |target: i64| (w - target).abs() <= SCALE;
    assert!(
        near(20 * SCALE) || near(40 * SCALE) || near(10 * SCALE),
        "winner {} not near the period or its harmonics",
        w
    );
}

#[test]
fn scan_single_candidate_returns_it() {
    let env: Vec<i64> = vec![5; 10];
    let mids: Vec<Vec<i64>> = vec![vec![2 * SCALE; 3]];
    let w = scan_intervals(&env, 7 * SCALE, 2 * SCALE, 1, &mids);
    assert_eq!(w, 7 * SCALE);
}
