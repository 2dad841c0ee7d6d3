//! The tempo estimator: configuration, the analysis pipeline, and its
//! guarantees.
//!
//! One analysis runs the linear pipeline: extract the energy envelope, draw
//! random midpoint batches, scan the candidate intervals for the lowest
//! autodifference total, and convert the winning interval back to a tempo.
//! The estimator's configuration is validated at construction and may be
//! reused across analyses; its random stream persists and advances across
//! calls.

use vstd::prelude::*;

verus! {

use crate::AnalysisError;
use crate::AMP_LIMIT;
use crate::INTERVAL_LIMIT;
use crate::LEN_LIMIT;
use crate::RATE_LIMIT;
use crate::SCALE;
use crate::STRIDE_LIMIT;
use crate::envelope::build_envelope;
use crate::envelope::spec_envelope;
use crate::rng::fresh_thread_rng;
use crate::rng::spec_mids;
use crate::rng::spec_rng_state;
use crate::rng::RandomSource;
use crate::rng::SeededRng;
use crate::score::spec_abs;
use crate::search::scan_intervals;
use crate::search::spec_mid_views;
use crate::search::spec_scan;
use crate::units::convert_units;
use crate::units::lemma_convert_antitone;
use crate::units::lemma_round_trip_lower;
use crate::units::spec_convert;
use crate::units::spec_round_trip;
use crate::units::spec_tempo_numer;

/// Default lowest tempo scanned: 50 bpm.
pub const DEFAULT_LOWER: i64 = 50 * SCALE;

/// Default highest tempo scanned: 450 bpm.
pub const DEFAULT_UPPER: i64 = 450 * SCALE;

/// Default stride: raw samples consumed per envelope sample.
pub const DEFAULT_STRIDE: u64 = 64;

/// Default sample rate: 44100 Hz.
pub const DEFAULT_RATE: i64 = 44100 * SCALE;

/// Default number of candidate intervals scanned.
pub const DEFAULT_STEPS: u32 = 800;

/// Default number of random midpoints scored per candidate.
pub const DEFAULT_SAMPLES: u32 = 1024;

/// What a valid configuration must satisfy: ordered positive tempo bounds,
/// a positive stride, step count and batch size, and values small enough
/// that every intermediate of the fixed-point pipeline stays representable
/// (the converted scan range must lie within `[1, INTERVAL_LIMIT]`).
pub open spec fn spec_params_ok(
    lower: i64,
    upper: i64,
    stride: u64,
    rate: i64,
    steps: u32,
    samples: u32,
) -> bool {
    &&& 1 <= lower
    &&& lower < upper
    &&& 1 <= rate <= RATE_LIMIT
    &&& 1 <= stride <= STRIDE_LIMIT
    &&& 1 <= steps
    &&& 1 <= samples
    &&& 1 <= spec_convert(rate as int, stride as int, upper as int)
    &&& spec_convert(rate as int, stride as int, lower as int) <= INTERVAL_LIMIT as int
}

/// Length of the envelope an input of the given length yields.
pub open spec fn spec_env_len(input: Seq<i64>, stride: int) -> int {
    input.len() as int / stride
}

/// Whether a batch list has the scan's shape: one batch per candidate, one
/// in-range midpoint per scored sample.
pub open spec fn spec_batches_ok(m: Seq<Seq<i64>>, steps: int, samples: int, bound: int) -> bool {
    &&& m.len() == steps
    &&& forall|i: int| 0 <= i < steps ==> (#[trigger] m[i]).len() == samples
    &&& forall|i: int, j: int|
        0 <= i < steps && 0 <= j < samples ==> 0 <= #[trigger] m[i][j] < bound
}

/// The tempo the scan reports over a given envelope and batch list: the
/// winning interval of the candidate scan, converted back to beats per
/// minute.
pub open spec fn spec_scan_outcome(
    lower: i64,
    upper: i64,
    stride: u64,
    rate: i64,
    steps: u32,
    env: Seq<i64>,
    m: Seq<Seq<i64>>,
) -> int {
    spec_convert(
        rate as int,
        stride as int,
        spec_scan(
            env,
            spec_convert(rate as int, stride as int, lower as int),
            spec_convert(rate as int, stride as int, upper as int),
            steps as int,
            m,
        ),
    )
}

/// The tempo an analysis reports for a given input and batch list: the
/// scan's outcome over the input's envelope.
pub open spec fn spec_outcome(
    lower: i64,
    upper: i64,
    stride: u64,
    rate: i64,
    steps: u32,
    input: Seq<i64>,
    m: Seq<Seq<i64>>,
) -> int {
    spec_scan_outcome(lower, upper, stride, rate, steps, spec_envelope(input, stride as int), m)
}

/// The fully deterministic tempo a seeded estimator reports: the outcome
/// over the batches its generator yields from the seed.
pub open spec fn spec_seeded_outcome(
    lower: i64,
    upper: i64,
    stride: u64,
    rate: i64,
    steps: u32,
    samples: u32,
    seed: u64,
    input: Seq<i64>,
) -> int {
    spec_outcome(
        lower,
        upper,
        stride,
        rate,
        steps,
        input,
        spec_mids(seed, steps as int, samples as int, spec_env_len(input, stride as int) * (
        SCALE as int)),
    )
}

/// The tempo estimator: tunable parameters and a persistent random stream.
#[derive(Debug)]
pub struct SimpleEstimator {
    /// Lowest tempo scanned, in fixed-point beats per minute.
    pub lower: i64,
    /// Highest tempo scanned, in fixed-point beats per minute.
    pub upper: i64,
    /// Raw samples consumed per envelope sample (the stride).
    pub interval: u64,
    /// The input's sample rate, in fixed-point Hertz.
    pub rate: i64,
    /// Number of candidate intervals scanned.
    pub steps: u32,
    /// Random midpoints scored per candidate.
    pub samples: u32,
    /// The estimator's random midpoint source.
    pub rng: RandomSource,
}

impl SimpleEstimator {
    /// The estimator's configuration invariant.
    pub open spec fn wf(&self) -> bool {
        spec_params_ok(self.lower, self.upper, self.interval, self.rate, self.steps, self.samples)
    }

    /// Whether the midpoints come from the crate's seeded generator.
    pub open spec fn is_seeded(&self) -> bool {
        self.rng is Seeded
    }

    /// Whether the midpoints come from the system's thread-local generator.
    pub open spec fn is_system(&self) -> bool {
        self.rng is System
    }

    /// The seeded generator's current state.
    pub open spec fn seed_state(&self) -> u64 {
        self.rng->Seeded_0.state
    }

    /// Assemble an estimator from checked parameters, drawing midpoints
    /// from the system generator.
    fn make(lower: i64, upper: i64, stride: u64, rate: i64, steps: u32, samples: u32) -> (r:
        SimpleEstimator)
        requires
            spec_params_ok(lower, upper, stride, rate, steps, samples),
        ensures
            r.wf(),
            r.lower == lower,
            r.upper == upper,
            r.interval == stride,
            r.rate == rate,
            r.steps == steps,
            r.samples == samples,
            r.is_system(),
    {
        SimpleEstimator {
            lower,
            upper,
            interval: stride,
            rate,
            steps,
            samples,
            rng: RandomSource::System(fresh_thread_rng()),
        }
    }

    /// A reasonably performing, reasonably accurate default.
    pub fn default() -> (r: SimpleEstimator)
        ensures
            r.wf(),
            r.lower == DEFAULT_LOWER,
            r.upper == DEFAULT_UPPER,
            r.interval == DEFAULT_STRIDE,
            r.rate == DEFAULT_RATE,
            r.steps == DEFAULT_STEPS,
            r.samples == DEFAULT_SAMPLES,
            r.is_system(),
    {
        proof {
            lemma_preset_params_ok();
        }
        Self::make(
            DEFAULT_LOWER,
            DEFAULT_UPPER,
            DEFAULT_STRIDE,
            DEFAULT_RATE,
            DEFAULT_STEPS,
            DEFAULT_SAMPLES,
        )
    }

    /// Pick one of a few preset trade-offs between accuracy and speed:
    /// levels 0, 1 and 2 trade longer strides, more steps or larger batches
    /// against run time; any other level is the default.
    pub fn with_accuracy(level: u32) -> (r: SimpleEstimator)
        ensures
            r.wf(),
            r.is_system(),
            r.lower == DEFAULT_LOWER,
            r.upper == DEFAULT_UPPER,
            r.rate == DEFAULT_RATE,
            r.interval == (if level == 0 {
                2048u64
            } else if level == 1 {
                128u64
            } else if level == 2 {
                256u64
            } else {
                DEFAULT_STRIDE
            }),
            r.steps == (if level == 1 {
                1600u32
            } else {
                DEFAULT_STEPS
            }),
            r.samples == (if level == 0 {
                2048u32
            } else if level == 1 {
                2048u32
            } else if level == 2 {
                8192u32
            } else {
                DEFAULT_SAMPLES
            }),
    {
        proof {
            lemma_preset_params_ok();
        }
        match level {
            0 => Self::make(DEFAULT_LOWER, DEFAULT_UPPER, 2048, DEFAULT_RATE, 800, 2048),
            1 => Self::make(DEFAULT_LOWER, DEFAULT_UPPER, 128, DEFAULT_RATE, 1600, 2048),
            2 => Self::make(DEFAULT_LOWER, DEFAULT_UPPER, 256, DEFAULT_RATE, 800, 8192),
            _ => Self::default(),
        }
    }

    /// Build an estimator with the default tempo range and rate but a
    /// caller-chosen stride, step count and batch size. Rejected with
    /// `InvalidConfig` exactly when the parameters violate
    /// [`spec_params_ok`].
    pub fn with_settings(interval: u64, steps: u32, samples: u32) -> (r: Result<
        SimpleEstimator,
        AnalysisError,
    >)
        ensures
            match r {
                Ok(e) => {
                    &&& spec_params_ok(
                        DEFAULT_LOWER,
                        DEFAULT_UPPER,
                        interval,
                        DEFAULT_RATE,
                        steps,
                        samples,
                    )
                    &&& e.wf()
                    &&& e.lower == DEFAULT_LOWER
                    &&& e.upper == DEFAULT_UPPER
                    &&& e.interval == interval
                    &&& e.rate == DEFAULT_RATE
                    &&& e.steps == steps
                    &&& e.samples == samples
                    &&& e.is_system()
                },
                Err(err) => {
                    &&& err == AnalysisError::InvalidConfig
                    &&& !spec_params_ok(
                        DEFAULT_LOWER,
                        DEFAULT_UPPER,
                        interval,
                        DEFAULT_RATE,
                        steps,
                        samples,
                    )
                },
            },
    {
        Self::with_config(DEFAULT_LOWER, DEFAULT_UPPER, interval, DEFAULT_RATE, steps, samples)
    }

    /// Build an estimator from a full configuration. Rejected with
    /// `InvalidConfig` exactly when the parameters violate
    /// [`spec_params_ok`]: tempo bounds out of order or non-positive, a
    /// zero stride, step count or batch size, or values beyond the
    /// fixed-point limits.
    pub fn with_config(lower: i64, upper: i64, stride: u64, rate: i64, steps: u32, samples: u32) -> (r:
        Result<SimpleEstimator, AnalysisError>)
        ensures
            match r {
                Ok(e) => {
                    &&& spec_params_ok(lower, upper, stride, rate, steps, samples)
                    &&& e.wf()
                    &&& e.lower == lower
                    &&& e.upper == upper
                    &&& e.interval == stride
                    &&& e.rate == rate
                    &&& e.steps == steps
                    &&& e.samples == samples
                    &&& e.is_system()
                },
                Err(err) => {
                    &&& err == AnalysisError::InvalidConfig
                    &&& !spec_params_ok(lower, upper, stride, rate, steps, samples)
                },
            },
    {
        if lower < 1 || upper <= lower || rate < 1 || rate > RATE_LIMIT || stride < 1 || stride
            > STRIDE_LIMIT || steps < 1 || samples < 1 {
            return Err(AnalysisError::InvalidConfig);
        }
        let fastest: i64 = convert_units(rate, stride, upper);
        if fastest < 1 {
            return Err(AnalysisError::InvalidConfig);
        }
        let slowest: i64 = convert_units(rate, stride, lower);
        if slowest > INTERVAL_LIMIT {
            return Err(AnalysisError::InvalidConfig);
        }
        Ok(Self::make(lower, upper, stride, rate, steps, samples))
    }

    /// Decide whether this estimator's configuration is valid: exactly the
    /// configuration invariant, for callers that cannot reason about it.
    pub fn is_valid(&self) -> (r: bool)
        ensures
            r == self.wf(),
    {
        if self.lower < 1 || self.upper <= self.lower || self.rate < 1 || self.rate > RATE_LIMIT
            || self.interval < 1 || self.interval > STRIDE_LIMIT || self.steps < 1 || self.samples
            < 1 {
            return false;
        }
        let fastest: i64 = convert_units(self.rate, self.interval, self.upper);
        if fastest < 1 {
            return false;
        }
        let slowest: i64 = convert_units(self.rate, self.interval, self.lower);
        slowest <= INTERVAL_LIMIT
    }

    /// Replace the random source by the crate's deterministic generator,
    /// started from the given seed: analyses become reproducible.
    pub fn use_seed(&mut self, seed: u64)
        ensures
            final(self).lower == old(self).lower,
            final(self).upper == old(self).upper,
            final(self).interval == old(self).interval,
            final(self).rate == old(self).rate,
            final(self).steps == old(self).steps,
            final(self).samples == old(self).samples,
            final(self).is_seeded(),
            final(self).seed_state() == seed,
    {
        self.rng = RandomSource::Seeded(SeededRng::new(seed));
    }

    /// Convert a tempo to its envelope-space interval under this
    /// estimator's rate and stride.
    pub fn bpm_to_interval(&self, bpm: i64) -> (r: i64)
        requires
            self.wf(),
            1 <= bpm,
        ensures
            r as int == spec_convert(self.rate as int, self.interval as int, bpm as int),
    {
        convert_units(self.rate, self.interval, bpm)
    }

    /// Convert an envelope-space interval back to a tempo under this
    /// estimator's rate and stride.
    pub fn interval_to_bpm(&self, interval: i64) -> (r: i64)
        requires
            self.wf(),
            1 <= interval,
        ensures
            r as int == spec_convert(self.rate as int, self.interval as int, interval as int),
    {
        convert_units(self.rate, self.interval, interval)
    }

    /// Estimate the tempo of a stream of fixed-point amplitudes.
    ///
    /// The input is consumed fully before any scoring begins. An input too
    /// short to yield a single envelope sample is rejected with
    /// `EmptyInput` and leaves the estimator untouched; any other input
    /// yields a tempo no lower than the configured range's bottom and no
    /// higher than the top's round-trip image. Under a seeded random
    /// source the result is an exact function of the configuration, the
    /// seed and the input.
    pub fn analyse(&mut self, samples: &Vec<i64>) -> (r: Result<i64, AnalysisError>)
        requires
            old(self).wf(),
            samples@.len() <= LEN_LIMIT as int,
            forall|i: int|
                0 <= i < samples@.len() ==> spec_abs(samples@[i] as int) <= AMP_LIMIT as int,
        ensures
            final(self).wf(),
            final(self).lower == old(self).lower,
            final(self).upper == old(self).upper,
            final(self).interval == old(self).interval,
            final(self).rate == old(self).rate,
            final(self).steps == old(self).steps,
            final(self).samples == old(self).samples,
            r is Err <==> spec_env_len(samples@, old(self).interval as int) == 0,
            r is Err ==> r->Err_0 == AnalysisError::EmptyInput && *final(self) == *old(self),
            r is Ok ==> exists|m: Seq<Seq<i64>>|
                #[trigger] spec_batches_ok(
                    m,
                    old(self).steps as int,
                    old(self).samples as int,
                    spec_env_len(samples@, old(self).interval as int) * (SCALE as int),
                ) && r->Ok_0 as int == spec_outcome(
                    old(self).lower,
                    old(self).upper,
                    old(self).interval,
                    old(self).rate,
                    old(self).steps,
                    samples@,
                    m,
                ),
            r is Ok ==> old(self).lower as int <= r->Ok_0 as int <= spec_round_trip(
                old(self).rate as int,
                old(self).interval as int,
                old(self).upper as int,
            ),
            old(self).is_seeded() && r is Ok ==> {
                &&& r->Ok_0 as int == spec_seeded_outcome(
                    old(self).lower,
                    old(self).upper,
                    old(self).interval,
                    old(self).rate,
                    old(self).steps,
                    old(self).samples,
                    old(self).seed_state(),
                    samples@,
                )
                &&& final(self).is_seeded()
                &&& final(self).seed_state() == spec_rng_state(
                    old(self).seed_state(),
                    old(self).steps as int * old(self).samples as int,
                )
            },
            old(self).is_system() ==> final(self).is_system(),
    {
        let nrg: Vec<i64> = build_envelope(samples, self.interval);
        if nrg.len() == 0 {
            return Err(AnalysisError::EmptyInput);
        }
        proof {
            vstd::arithmetic::div_mod::lemma_div_nonincreasing(
                samples@.len() as int,
                self.interval as int,
            );
        }
        Ok(self.scan_for_bpm(&nrg))
    }

    /// Scan the configured tempo range over an energy envelope and report
    /// the tempo with the minimum autodifference.
    fn scan_for_bpm(&mut self, nrg: &Vec<i64>) -> (r: i64)
        requires
            old(self).wf(),
            1 <= nrg@.len() <= LEN_LIMIT as int,
            forall|i: int| 0 <= i < nrg@.len() ==> spec_abs(nrg@[i] as int) <= AMP_LIMIT as int,
        ensures
            final(self).wf(),
            final(self).lower == old(self).lower,
            final(self).upper == old(self).upper,
            final(self).interval == old(self).interval,
            final(self).rate == old(self).rate,
            final(self).steps == old(self).steps,
            final(self).samples == old(self).samples,
            exists|m: Seq<Seq<i64>>|
                #[trigger] spec_batches_ok(
                    m,
                    old(self).steps as int,
                    old(self).samples as int,
                    nrg@.len() as int * (SCALE as int),
                ) && r as int == spec_scan_outcome(
                    old(self).lower,
                    old(self).upper,
                    old(self).interval,
                    old(self).rate,
                    old(self).steps,
                    nrg@,
                    m,
                ),
            old(self).lower as int <= r as int <= spec_round_trip(
                old(self).rate as int,
                old(self).interval as int,
                old(self).upper as int,
            ),
            old(self).is_seeded() ==> {
                &&& r as int == spec_scan_outcome(
                    old(self).lower,
                    old(self).upper,
                    old(self).interval,
                    old(self).rate,
                    old(self).steps,
                    nrg@,
                    spec_mids(
                        old(self).seed_state(),
                        old(self).steps as int,
                        old(self).samples as int,
                        nrg@.len() as int * (SCALE as int),
                    ),
                )
                &&& final(self).is_seeded()
                &&& final(self).seed_state() == spec_rng_state(
                    old(self).seed_state(),
                    old(self).steps as int * old(self).samples as int,
                )
            },
            old(self).is_system() ==> final(self).is_system(),
    {
        let stride: u64 = self.interval;
        let bound: u64 = (nrg.len() as u64) * (SCALE as u64);
        let st: u32 = self.steps;
        let sa: u32 = self.samples;
        let mids: Vec<Vec<i64>> = self.rng.draw_batches(st, sa, bound);
        let slowest: i64 = convert_units(self.rate, stride, self.lower);
        let fastest: i64 = convert_units(self.rate, stride, self.upper);
        proof {
            lemma_convert_antitone(
                self.rate as int,
                stride as int,
                self.lower as int,
                self.upper as int,
            );
        }
        let w: i64 = scan_intervals(&nrg, slowest, fastest, st, &mids);
        let bpm: i64 = convert_units(self.rate, stride, w);
        proof {
            lemma_convert_antitone(self.rate as int, stride as int, fastest as int, w as int);
            lemma_convert_antitone(self.rate as int, stride as int, w as int, slowest as int);
            lemma_round_trip_lower(self.rate as int, stride as int, self.lower as int);
            assert(spec_batches_ok(
                spec_mid_views(mids@),
                st as int,
                sa as int,
                bound as int,
            ));
            assert(bpm as int == spec_scan_outcome(
                self.lower,
                self.upper,
                stride,
                self.rate,
                st,
                nrg@,
                spec_mid_views(mids@),
            ));
        }
        bpm
    }
}

/// The default configuration and the three accuracy presets satisfy the
/// configuration invariant, with exactly these scan ranges.
pub proof fn lemma_preset_params_ok()
    ensures
        spec_params_ok(DEFAULT_LOWER, DEFAULT_UPPER, DEFAULT_STRIDE, DEFAULT_RATE, DEFAULT_STEPS, DEFAULT_SAMPLES),
        spec_params_ok(DEFAULT_LOWER, DEFAULT_UPPER, 2048, DEFAULT_RATE, 800, 2048),
        spec_params_ok(DEFAULT_LOWER, DEFAULT_UPPER, 128, DEFAULT_RATE, 1600, 2048),
        spec_params_ok(DEFAULT_LOWER, DEFAULT_UPPER, 256, DEFAULT_RATE, 800, 8192),
        spec_convert(DEFAULT_RATE as int, DEFAULT_STRIDE as int, DEFAULT_LOWER as int) == 54190080,
        spec_convert(DEFAULT_RATE as int, DEFAULT_STRIDE as int, DEFAULT_UPPER as int) == 6021120,
{
    assert(spec_tempo_numer(DEFAULT_RATE as int) == 11364483465216000);
    vstd::arithmetic::div_mod::lemma_fundamental_div_mod_converse_div(
        11364483465216000,
        209715200,
        54190080,
        0,
    );
    vstd::arithmetic::div_mod::lemma_fundamental_div_mod_converse_div(
        11364483465216000,
        1887436800,
        6021120,
        0,
    );
    vstd::arithmetic::div_mod::lemma_fundamental_div_mod_converse_div(
        11364483465216000,
        6710886400,
        1693440,
        0,
    );
    vstd::arithmetic::div_mod::lemma_fundamental_div_mod_converse_div(
        11364483465216000,
        60397977600,
        188160,
        0,
    );
    vstd::arithmetic::div_mod::lemma_fundamental_div_mod_converse_div(
        11364483465216000,
        419430400,
        27095040,
        0,
    );
    vstd::arithmetic::div_mod::lemma_fundamental_div_mod_converse_div(
        11364483465216000,
        3774873600,
        3010560,
        0,
    );
    vstd::arithmetic::div_mod::lemma_fundamental_div_mod_converse_div(
        11364483465216000,
        838860800,
        13547520,
        0,
    );
    vstd::arithmetic::div_mod::lemma_fundamental_div_mod_converse_div(
        11364483465216000,
        7549747200,
        1505280,
        0,
    );
}

/// Law: under the default configuration the scan range's two ends convert
/// back to exactly the configured tempo bounds, so every analysis under the
/// default configuration reports a tempo within `[50, 450]` bpm.
pub proof fn lemma_default_range()
    ensures
        spec_round_trip(DEFAULT_RATE as int, DEFAULT_STRIDE as int, DEFAULT_LOWER as int)
            == DEFAULT_LOWER as int,
        spec_round_trip(DEFAULT_RATE as int, DEFAULT_STRIDE as int, DEFAULT_UPPER as int)
            == DEFAULT_UPPER as int,
{
    lemma_preset_params_ok();
    vstd::arithmetic::div_mod::lemma_fundamental_div_mod_converse_div(
        11364483465216000,
        3468165120,
        3276800,
        0,
    );
    vstd::arithmetic::div_mod::lemma_fundamental_div_mod_converse_div(
        11364483465216000,
        385351680,
        29491200,
        0,
    );
}

} // verus!
