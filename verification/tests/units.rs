//! Tempo / interval conversion behaviour.

use bpm_estimator::estimator::SimpleEstimator;
use bpm_estimator::SCALE;

#[test]
fn round_trip_within_one_per_mille() {
    let est = SimpleEstimator::default();
    let tempos: Vec<i64> = vec![50, 60, 100, 120, 200, 300, 449, 450];
    for t in tempos {
        let x: i64 = t * SCALE;
        let interval: i64 = est.bpm_to_interval(x);
        let back: i64 = est.interval_to_bpm(interval);
        assert!(back >= x, "round trip undershot {} -> {}", x, back);
        assert!(1000 * back <= 1001 * x, "round trip overshot {} -> {}", x, back);
    }
}

#[test]
fn default_range_converts_exactly() {
    let est = SimpleEstimator::default();
    let slowest: i64 = est.bpm_to_interval(50 * SCALE);
    let fastest: i64 = est.bpm_to_interval(450 * SCALE);
    assert_eq!(slowest, 54190080);
    assert_eq!(fastest, 6021120);
    assert_eq!(est.interval_to_bpm(slowest), 50 * SCALE);
    assert_eq!(est.interval_to_bpm(fastest), 450 * SCALE);
}

#[test]
fn slower_tempo_spans_longer_interval() {
    let est = SimpleEstimator::default();
    let mut previous: i64 = i64::MAX;
    for t in [50i64, 90, 150, 250, 450] {
        let interval: i64 = est.bpm_to_interval(t * SCALE);
        assert!(interval < previous, "interval did not shrink at {} bpm", t);
        previous = interval;
    }
}
