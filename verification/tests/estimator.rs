//! Estimator construction, analysis, errors and reproducibility.

use bpm_estimator::estimator::SimpleEstimator;
use bpm_estimator::rng::{RandomSource, SeededRng};
use bpm_estimator::AnalysisError;
use bpm_estimator::SCALE;

fn beep_track(seconds: usize) -> Vec<i64> {
    // A crude beat at 2 Hz: a quarter second of loudness, then silence.
    let rate: usize = 44100;
    let mut samples: Vec<i64> = Vec::new();
    for i in 0..seconds * rate {
        let phase: usize = i % (rate / 2);
        let loud: bool = phase < rate / 8;
        samples.push(if loud { 30000 * SCALE } else { 120 * SCALE });
    }
    samples
}

#[test]
fn default_fields_match_documentation() {
    let est = SimpleEstimator::default();
    assert_eq!(est.lower, 50 * SCALE);
    assert_eq!(est.upper, 450 * SCALE);
    assert_eq!(est.interval, 64);
    assert_eq!(est.rate, 44100 * SCALE);
    assert_eq!(est.steps, 800);
    assert_eq!(est.samples, 1024);
}

#[test]
fn with_accuracy_selects_presets() {
    let low = SimpleEstimator::with_accuracy(0);
    assert_eq!((low.interval, low.steps, low.samples), (2048, 800, 2048));
    let medium = SimpleEstimator::with_accuracy(1);
    assert_eq!((medium.interval, medium.steps, medium.samples), (128, 1600, 2048));
    let high = SimpleEstimator::with_accuracy(2);
    assert_eq!((high.interval, high.steps, high.samples), (256, 800, 8192));
    let other = SimpleEstimator::with_accuracy(9);
    assert_eq!((other.interval, other.steps, other.samples), (64, 800, 1024));
}

#[test]
fn with_settings_rejects_zero_parameters() {
    assert_eq!(
        SimpleEstimator::with_settings(0, 800, 1024).err(),
        Some(AnalysisError::InvalidConfig)
    );
    assert_eq!(
        SimpleEstimator::with_settings(64, 0, 1024).err(),
        Some(AnalysisError::InvalidConfig)
    );
    assert_eq!(
        SimpleEstimator::with_settings(64, 800, 0).err(),
        Some(AnalysisError::InvalidConfig)
    );
    assert!(SimpleEstimator::with_settings(64, 800, 1024).is_ok());
}

#[test]
fn with_config_rejects_bad_tempo_bounds() {
    let stride: u64 = 64;
    let rate: i64 = 44100 * SCALE;
    // Bounds out of order, equal, or non-positive.
    assert!(SimpleEstimator::with_config(450 * SCALE, 50 * SCALE, stride, rate, 800, 1024).is_err());
    assert!(SimpleEstimator::with_config(50 * SCALE, 50 * SCALE, stride, rate, 800, 1024).is_err());
    assert!(SimpleEstimator::with_config(0, 450 * SCALE, stride, rate, 800, 1024).is_err());
    // A non-positive rate.
    assert!(SimpleEstimator::with_config(50 * SCALE, 450 * SCALE, stride, 0, 800, 1024).is_err());
    // A sane configuration passes.
    assert!(SimpleEstimator::with_config(50 * SCALE, 450 * SCALE, stride, rate, 800, 1024).is_ok());
}

#[test]
fn analyse_empty_input_is_rejected() {
    let mut est = SimpleEstimator::default();
    assert_eq!(est.analyse(&vec![]), Err(AnalysisError::EmptyInput));
}

#[test]
fn analyse_input_shorter_than_stride_is_rejected() {
    let mut est = SimpleEstimator::default();
    let samples: Vec<i64> = vec![1000; 63];
    assert_eq!(est.analyse(&samples), Err(AnalysisError::EmptyInput));
}

#[test]
fn analyse_default_stays_in_configured_range() {
    let mut est = SimpleEstimator::default();
    let samples = beep_track(2);
    let bpm = est.analyse(&samples).unwrap();
    assert!(50 * SCALE <= bpm && bpm <= 450 * SCALE, "tempo {} out of range", bpm);
}

#[test]
fn analyse_seeded_is_reproducible() {
    let samples = beep_track(1);
    let mut first = SimpleEstimator::default();
    first.use_seed(99);
    let mut second = SimpleEstimator::default();
    second.use_seed(99);
    let a = first.analyse(&samples).unwrap();
    let b = second.analyse(&samples).unwrap();
    assert_eq!(a, b);
    // Re-seeding resets the stream: the same estimator repeats itself.
    first.use_seed(99);
    let c = first.analyse(&samples).unwrap();
    assert_eq!(a, c);
}

#[test]
fn seeded_batches_are_deterministic_and_in_range() {
    let mut one = RandomSource::Seeded(SeededRng::new(7));
    let mut two = RandomSource::Seeded(SeededRng::new(7));
    let a = one.draw_batches(5, 9, 1000);
    let b = two.draw_batches(5, 9, 1000);
    assert_eq!(a, b);
    assert_eq!(a.len(), 5);
    for row in &a {
        assert_eq!(row.len(), 9);
        for &v in row {
            assert!((0..1000).contains(&v));
        }
    }
}

#[test]
fn system_batches_have_shape_and_range() {
    let mut source = RandomSource::System(rand::thread_rng());
    let batches = source.draw_batches(8, 16, 1000);
    assert_eq!(batches.len(), 8);
    for row in &batches {
        assert_eq!(row.len(), 16);
        for &v in row {
            assert!((0..1000).contains(&v));
        }
    }
}
