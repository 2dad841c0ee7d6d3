//! Energy envelope extraction.
//!
//! A single forward pass over the raw amplitudes maintains one energy meter
//! `v`, starting at zero: a sample louder than the meter pulls it up by an
//! eighth of the gap (fast attack), a quieter one lets it sink by a
//! five-hundred-twelfth of the gap (slow release). After every `stride`-th
//! processed sample the meter's value is appended to the envelope, so an
//! input of `n` samples yields exactly `n / stride` envelope samples.

use vstd::prelude::*;

verus! {

use crate::AMP_LIMIT;
use crate::LEN_LIMIT;
use crate::score::spec_abs;

/// One step of the asymmetric leaky integrator: fast attack toward a louder
/// sample, slow release toward a quieter one.
pub open spec fn spec_env_step(v: int, z: int) -> int {
    if z > v {
        v + (z - v) / 8
    } else {
        v - (v - z) / 512
    }
}

/// The energy meter's value after the first `n` samples, starting from zero.
pub open spec fn spec_env_state(s: Seq<i64>, n: int) -> int
    decreases n,
{
    if n <= 0 {
        0
    } else {
        spec_env_step(spec_env_state(s, n - 1), spec_abs(s[n - 1] as int))
    }
}

/// The whole envelope: the meter value after each full stride of samples.
pub open spec fn spec_envelope(s: Seq<i64>, stride: int) -> Seq<i64> {
    Seq::new(
        (s.len() as int / stride) as nat,
        |k: int| spec_env_state(s, (k + 1) * stride) as i64,
    )
}

/// Law: the envelope of an input of `n` samples under stride `s` holds
/// exactly `n / s` energies (rounded down), whatever the samples hold.
pub proof fn lemma_envelope_length(s: Seq<i64>, stride: int)
    requires
        1 <= stride,
    ensures
        spec_envelope(s, stride).len() == s.len() as int / stride,
{
    vstd::arithmetic::div_mod::lemma_div_pos_is_pos(s.len() as int, stride);
}

/// One integrator step keeps the meter between zero and the loudness bound.
proof fn lemma_env_step_bounds(v: int, z: int, b: int)
    requires
        0 <= v <= b,
        0 <= z <= b,
    ensures
        0 <= spec_env_step(v, z) <= b,
{
    if z > v {
        vstd::arithmetic::div_mod::lemma_div_pos_is_pos(z - v, 8);
        vstd::arithmetic::div_mod::lemma_div_nonincreasing(z - v, 8);
    } else {
        vstd::arithmetic::div_mod::lemma_div_pos_is_pos(v - z, 512);
        vstd::arithmetic::div_mod::lemma_div_nonincreasing(v - z, 512);
    }
}

/// The meter stays between zero and the loudness bound over any prefix.
proof fn lemma_env_state_bounds(s: Seq<i64>, n: int)
    requires
        forall|i: int| 0 <= i < s.len() ==> spec_abs(s[i] as int) <= AMP_LIMIT as int,
        0 <= n <= s.len(),
    ensures
        0 <= spec_env_state(s, n) <= AMP_LIMIT as int,
    decreases n,
{
    if n > 0 {
        lemma_env_state_bounds(s, n - 1);
        assert(spec_abs(s[n - 1] as int) <= AMP_LIMIT as int);
        lemma_env_step_bounds(spec_env_state(s, n - 1), spec_abs(s[n - 1] as int), AMP_LIMIT as int);
    }
}

/// Extract the energy envelope of a raw amplitude stream.
///
/// The result holds exactly `samples.len() / stride` energies, the meter's
/// value after each full stride of input, all within `[0, AMP_LIMIT]`.
pub fn build_envelope(samples: &Vec<i64>, stride: u64) -> (env: Vec<i64>)
    requires
        1 <= stride,
        samples@.len() <= LEN_LIMIT,
        forall|i: int| 0 <= i < samples@.len() ==> spec_abs(samples@[i] as int) <= AMP_LIMIT as int,
    ensures
        env@ == spec_envelope(samples@, stride as int),
        env@.len() == samples@.len() as int / stride as int,
        forall|k: int|
            0 <= k < env@.len() ==> env@[k] as int == spec_env_state(
                samples@,
                (k + 1) * stride as int,
            ),
        forall|k: int| 0 <= k < env@.len() ==> 0 <= #[trigger] env@[k] <= AMP_LIMIT,
{
    let mut env: Vec<i64> = Vec::new();
    let mut v: i64 = 0;
    let mut c: u64 = 0;
    let mut i: usize = 0;
    proof {
        vstd::arithmetic::mul::lemma_mul_basics(stride as int);
    }
    while i < samples.len()
        invariant
            1 <= stride,
            samples@.len() <= LEN_LIMIT,
            forall|t: int| 0 <= t < samples@.len() ==> spec_abs(samples@[t] as int) <= AMP_LIMIT as int,
            0 <= i <= samples@.len(),
            0 <= c < stride,
            i as int == env@.len() * stride as int + c as int,
            v as int == spec_env_state(samples@, i as int),
            0 <= v <= AMP_LIMIT,
            forall|k: int|
                0 <= k < env@.len() ==> #[trigger] env@[k] as int == spec_env_state(
                    samples@,
                    (k + 1) * stride as int,
                ),
            forall|k: int| 0 <= k < env@.len() ==> 0 <= #[trigger] env@[k] <= AMP_LIMIT,
        decreases samples@.len() - i as int,
    {
        let s: i64 = samples[i];
        let z: i64 = if s < 0 {
            -s
        } else {
            s
        };
        proof {
            assert(spec_abs(samples@[i as int] as int) <= AMP_LIMIT as int);
            lemma_env_step_bounds(v as int, z as int, AMP_LIMIT as int);
        }
        if z > v {
            v = v + (z - v) / 8;
        } else {
            v = v - (v - z) / 512;
        }
        i = i + 1;
        c = c + 1;
        if c == stride {
            proof {
                vstd::arithmetic::mul::lemma_mul_is_distributive_add_other_way(
                    stride as int,
                    env@.len() as int,
                    1,
                );
            }
            env.push(v);
            c = 0;
        }
    }
    proof {
        vstd::arithmetic::div_mod::lemma_fundamental_div_mod_converse(
            i as int,
            stride as int,
            env@.len() as int,
            c as int,
        );
        lemma_env_state_bounds(samples@, samples@.len() as int);
        assert(env@ =~= spec_envelope(samples@, stride as int));
    }
    env
}

} // verus!
