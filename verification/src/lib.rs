//! Tempo (beats-per-minute) estimation from a digitized audio signal.
//!
//! The estimator turns a raw amplitude stream into a coarse energy envelope,
//! scans a range of candidate beat intervals with a randomized
//! autodifference metric, and reports the best-scoring tempo.
//!
//! All signal values (amplitudes, envelope energies, intervals, tempos and
//! sample rates) are fixed-point numbers: an `i64` carrying [`SCALE`]
//! fractional units per whole unit.

use vstd::prelude::*;

pub mod envelope;
pub mod estimator;
pub mod rng;
pub mod score;
pub mod search;
pub mod units;

pub use estimator::SimpleEstimator;
pub use score::autodifference;

verus! {

/// Fixed-point scale: every amplitude, energy, interval, rate and bpm value
/// is an `i64` counting `1 / SCALE` fractional units.
pub const SCALE: i64 = 65536;

/// Largest magnitude an amplitude or envelope energy may carry.
pub const AMP_LIMIT: i64 = 0x100_0000_0000;

/// Largest number of raw samples one analysis accepts.
pub const LEN_LIMIT: u64 = 0x100_0000_0000;

/// Largest sample rate (fixed point) a configuration accepts.
pub const RATE_LIMIT: i64 = 0x100_0000_0000;

/// Largest stride (raw samples per envelope sample) a configuration accepts.
pub const STRIDE_LIMIT: u64 = 0x4_0000_0000_0000;

/// Largest envelope-space interval (fixed point) a configuration may scan.
pub const INTERVAL_LIMIT: i64 = 0x2000_0000_0000;

/// Largest midpoint offset (fixed point) the scorer accepts.
pub const MID_LIMIT: i64 = 0x200_0000_0000_0000;

/// Bound on the magnitude of one autodifference score.
pub const SCORE_LIMIT: i64 = 0x200_0000_0000;

/// Why an estimator could not be built or an analysis could not run.
#[derive(Debug, Clone, Copy, PartialEq, Eq, Structural)]
pub enum AnalysisError {
    /// A configuration invariant is violated: tempo bounds out of order or
    /// non-positive, a zero stride, step count or sample count, or a value
    /// beyond the fixed-point limits.
    InvalidConfig,
    /// The input produced an empty energy envelope, so no tempo exists.
    EmptyInput,
}

} // verus!
