//! Energy envelope extraction behaviour.

use bpm_estimator::envelope::build_envelope;

#[test]
fn envelope_length_is_input_length_over_stride() {
    let cases: Vec<(usize, u64, usize)> = vec![
        (0, 64, 0),
        (1, 64, 0),
        (63, 64, 0),
        (64, 64, 1),
        (65, 64, 1),
        (640, 64, 10),
        (5, 1, 5),
        (129, 64, 2),
    ];
    for (n, stride, expected) in cases {
        let samples: Vec<i64> = vec![1000; n];
        let env = build_envelope(&samples, stride);
        assert_eq!(env.len(), expected, "length for n={} stride={}", n, stride);
    }
}

#[test]
fn envelope_attack_follows_an_eighth_of_the_gap() {
    // Meter starts at zero; each sample louder than the meter pulls it up
    // by an eighth of the gap, rounded down.
    let samples: Vec<i64> = vec![800, 800];
    let env = build_envelope(&samples, 1);
    assert_eq!(env, vec![100, 187]); // 0 + 800/8, then 100 + 700/8
}

#[test]
fn envelope_release_sinks_a_five_hundred_twelfth() {
    let samples: Vec<i64> = vec![51200, 0];
    let env = build_envelope(&samples, 1);
    assert_eq!(env, vec![6400, 6388]); // 51200/8, then 6400 - 6400/512
}

#[test]
fn envelope_rectifies_negative_amplitudes() {
    let positive = build_envelope(&vec![800, 800], 1);
    let negative = build_envelope(&vec![-800, -800], 1);
    assert_eq!(positive, negative);
}

#[test]
fn envelope_subsamples_the_meter() {
    // With stride 2 only the meter values after samples 2 and 4 appear.
    let samples: Vec<i64> = vec![800, 800, 800, 800];
    let all = build_envelope(&samples, 1);
    let sub = build_envelope(&samples, 2);
    assert_eq!(sub.len(), 2);
    assert_eq!(sub[0], all[1]);
    assert_eq!(sub[1], all[3]);
}
