//! Random midpoint sources.
//!
//! The estimator owns a mutable stream of random numbers that persists and
//! advances across analyses. Two sources are available: the operating
//! system's thread-local generator (the default), and a seeded linear
//! congruential generator of this crate whose every draw is pinned down
//! exactly, so that a fixed seed makes the whole analysis reproducible.

use vstd::prelude::*;

verus! {

/// Multiplier of the seeded linear congruential generator.
pub const LCG_MUL: u64 = 6364136223846793005;

/// Increment of the seeded linear congruential generator.
pub const LCG_INC: u64 = 1442695040888963407;

/// One step of the seeded generator: multiply, add, keep the low 64 bits.
pub open spec fn spec_rng_next(s: u64) -> u64 {
    (((s as int) * (LCG_MUL as int) + (LCG_INC as int)) % 0x1_0000_0000_0000_0000) as u64
}

/// The seeded generator's state after `n` steps from `s0`.
pub open spec fn spec_rng_state(s0: u64, n: int) -> u64
    decreases n,
{
    if n <= 0 {
        s0
    } else {
        spec_rng_next(spec_rng_state(s0, n - 1))
    }
}

/// A deterministic 64-bit linear congruential generator.
#[derive(Debug, Clone, Copy, PartialEq, Eq, Structural)]
pub struct SeededRng {
    /// The generator's current state.
    pub state: u64,
}

impl SeededRng {
    /// Start a deterministic stream from a caller-chosen seed.
    pub fn new(seed: u64) -> (r: SeededRng)
        ensures
            r.state == seed,
    {
        SeededRng { state: seed }
    }

    /// Advance the stream once and reduce the draw below `bound`.
    pub fn next_below(&mut self, bound: u64) -> (r: u64)
        requires
            bound >= 1,
        ensures
            final(self).state == spec_rng_next(old(self).state),
            r == spec_rng_next(old(self).state) as int % bound as int,
            r < bound,
    {
        proof {
            vstd::arithmetic::mul::lemma_mul_inequality(
                self.state as int,
                u64::MAX as int,
                LCG_MUL as int,
            );
        }
        let wide: u128 = (self.state as u128) * (LCG_MUL as u128) + (LCG_INC as u128);
        let next: u64 = (wide % 0x1_0000_0000_0000_0000u128) as u64;
        self.state = next;
        next % bound
    }
}

/// The thread-local generator of the `rand` crate, opaque to this crate.
#[verifier::external_type_specification]
#[verifier::external_body]
pub struct ExThreadRng(rand::rngs::ThreadRng);

/// Relies on rand::thread_rng: a handle to the lazily seeded thread-local
/// generator.
#[verifier::external_body]
pub(crate) fn fresh_thread_rng() -> rand::rngs::ThreadRng {
    rand::thread_rng()
}

/// Relies on rand::Rng::gen_range over the half-open range `0..bound`, which
/// panics only on an empty range and returns a uniformly distributed value
/// below `bound`. Nothing more is assumed of the draw.
#[verifier::external_body]
pub(crate) fn system_below(rng: &mut rand::rngs::ThreadRng, bound: u64) -> (r: u64)
    requires
        bound >= 1,
    ensures
        r < bound,
{
    rand::Rng::gen_range(rng, 0..bound)
}

/// The `n`-th midpoint a seeded source yields when drawing below `bound`:
/// the generator's state after `n + 1` steps, reduced below the bound.
pub open spec fn spec_mid(s0: u64, n: int, bound: int) -> i64 {
    (spec_rng_state(s0, n + 1) as int % bound) as i64
}

/// All midpoint batches a seeded source yields: `steps` rows of `samples`
/// draws each, in drawing order.
pub open spec fn spec_mids(s0: u64, steps: int, samples: int, bound: int) -> Seq<Seq<i64>> {
    Seq::new(
        steps as nat,
        |i: int| Seq::new(samples as nat, |j: int| spec_mid(s0, i * samples + j, bound)),
    )
}

/// Where the estimator's random midpoints come from.
#[derive(Debug)]
pub enum RandomSource {
    /// The crate's own generator: every draw is a function of the seed.
    Seeded(SeededRng),
    /// The operating system's thread-local generator: draws are arbitrary.
    System(rand::rngs::ThreadRng),
}

impl RandomSource {
    /// Draw one value below `bound`; a seeded source advances exactly one
    /// generator step.
    pub fn draw_below(&mut self, bound: u64) -> (r: u64)
        requires
            bound >= 1,
        ensures
            r < bound,
            *old(self) is Seeded ==> {
                &&& *final(self) is Seeded
                &&& final(self)->Seeded_0.state == spec_rng_next(old(self)->Seeded_0.state)
                &&& r == spec_rng_next(old(self)->Seeded_0.state) as int % bound as int
            },
            *old(self) is System ==> *final(self) is System,
    {
        match self {
            RandomSource::Seeded(g) => g.next_below(bound),
            RandomSource::System(t) => system_below(t, bound),
        }
    }

    /// Draw `steps` batches of `samples` midpoints each, all below `bound`.
    /// A seeded source yields exactly the batches of [`spec_mids`] and
    /// advances one generator step per draw; a system source yields
    /// arbitrary in-range batches.
    pub fn draw_batches(&mut self, steps: u32, samples: u32, bound: u64) -> (mids: Vec<Vec<i64>>)
        requires
            1 <= bound <= crate::MID_LIMIT as u64,
        ensures
            mids@.len() == steps as int,
            forall|i: int| 0 <= i < steps as int ==> #[trigger] mids@[i]@.len() == samples as int,
            forall|i: int, j: int|
                0 <= i < steps as int && 0 <= j < samples as int ==> 0 <= #[trigger] mids@[i]@[j]
                    < bound as i64,
            *old(self) is Seeded ==> {
                &&& *final(self) is Seeded
                &&& final(self)->Seeded_0.state == spec_rng_state(
                    old(self)->Seeded_0.state,
                    steps as int * samples as int,
                )
                &&& crate::search::spec_mid_views(mids@) == spec_mids(
                    old(self)->Seeded_0.state,
                    steps as int,
                    samples as int,
                    bound as int,
                )
            },
            *old(self) is System ==> *final(self) is System,
    {
        let ghost seeded = *old(self) is Seeded;
        let ghost s0: u64 = if *old(self) is Seeded {
            old(self)->Seeded_0.state
        } else {
            0
        };
        let mut mids: Vec<Vec<i64>> = Vec::new();
        let mut i: u32 = 0;
        proof {
            vstd::arithmetic::mul::lemma_mul_basics(samples as int);
        }
        while i < steps
            invariant
                1 <= bound <= crate::MID_LIMIT as u64,
                0 <= i <= steps,
                mids@.len() == i as int,
                forall|t: int| 0 <= t < i as int ==> #[trigger] mids@[t]@.len() == samples as int,
                forall|t: int, j: int|
                    0 <= t < i as int && 0 <= j < samples as int ==> 0 <= #[trigger] mids@[t]@[j]
                        < bound as i64,
                seeded == (*self is Seeded),
                !seeded ==> *self is System,
                seeded ==> self->Seeded_0.state == spec_rng_state(s0, i as int * samples as int),
                seeded ==> forall|t: int, j: int|
                    0 <= t < i as int && 0 <= j < samples as int ==> #[trigger] mids@[t]@[j]
                        == spec_mid(s0, t * samples as int + j, bound as int),
            decreases steps - i,
        {
            let mut row: Vec<i64> = Vec::new();
            let mut j: u32 = 0;
            while j < samples
                invariant
                    1 <= bound <= crate::MID_LIMIT as u64,
                    0 <= j <= samples,
                    i < steps,
                    row@.len() == j as int,
                    forall|t: int| 0 <= t < j as int ==> 0 <= #[trigger] row@[t] < bound as i64,
                    seeded == (*self is Seeded),
                    !seeded ==> *self is System,
                    seeded ==> self->Seeded_0.state == spec_rng_state(
                        s0,
                        i as int * samples as int + j as int,
                    ),
                    seeded ==> forall|t: int|
                        0 <= t < j as int ==> #[trigger] row@[t] == spec_mid(
                            s0,
                            i as int * samples as int + t,
                            bound as int,
                        ),
                decreases samples - j,
            {
                let v: u64 = self.draw_below(bound);
                row.push(v as i64);
                j = j + 1;
            }
            proof {
                vstd::arithmetic::mul::lemma_mul_is_distributive_add_other_way(
                    samples as int,
                    i as int,
                    1,
                );
            }
            mids.push(row);
            i = i + 1;
        }
        proof {
            if seeded {
                assert(crate::search::spec_mid_views(mids@) =~~= spec_mids(
                    s0,
                    steps as int,
                    samples as int,
                    bound as int,
                ));
            }
        }
        mids
    }
}

} // verus!
