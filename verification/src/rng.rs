//! The render-time pseudo-random source.
//!
//! Every noise unit owns one of these generators, seeded from a 64-bit mix
//! of the sound's seed and the unit's stage index. The generator is a pure
//! function of its state, so a rendered buffer is a pure function of the
//! sound description — no entropy from outside the description ever reaches
//! the signal path.

use vstd::prelude::*;
use vstd::wrapping::u64_specs;

verus! {

/// The additive constant of the generator (the golden-ratio increment).
pub const RNG_INCREMENT: u64 = 0x9E37_79B9_7F4A_7C15;

/// First multiplier of the output mix.
pub const RNG_MIX_A: u64 = 0xBF58_476D_1CE4_E5B9;

/// Second multiplier of the output mix.
pub const RNG_MIX_B: u64 = 0x94D0_49BB_1331_11EB;

/// The output mix: two xor-shift-multiply rounds and a final fold.
pub open spec fn spec_mix(z: u64) -> u64 {
    let a = u64_specs::wrapping_mul(z ^ (z >> 30), RNG_MIX_A);
    let b = u64_specs::wrapping_mul(a ^ (a >> 27), RNG_MIX_B);
    b ^ (b >> 31)
}

/// The state after one draw.
pub open spec fn spec_step(s: u64) -> u64 {
    u64_specs::wrapping_add(s, RNG_INCREMENT)
}

/// The seed of the noise generator of pipeline stage `k` for a sound seeded
/// with `seed`.
pub open spec fn spec_stage_seed(seed: u64, k: u64) -> u64 {
    spec_mix(u64_specs::wrapping_add(seed, u64_specs::wrapping_mul(k, RNG_INCREMENT)))
}

/// Scatter the output mix so nearby seeds and stage indices give unrelated
/// noise generators.
pub fn stage_seed(seed: u64, k: u64) -> (r: u64)
    ensures
        r == spec_stage_seed(seed, k),
{
    mix(seed.wrapping_add(k.wrapping_mul(RNG_INCREMENT)))
}

/// One round of the output mix.
fn mix(z: u64) -> (r: u64)
    ensures
        r == spec_mix(z),
{
    let a = (z ^ (z >> 30)).wrapping_mul(RNG_MIX_A);
    let b = (a ^ (a >> 27)).wrapping_mul(RNG_MIX_B);
    b ^ (b >> 31)
}

/// A counter-based pseudo-random generator: the state advances by a fixed
/// odd increment and each output is a bijective mix of the state.
#[derive(Clone, Copy, Debug, PartialEq, Eq, Structural)]
pub struct NoiseRng {
    pub state: u64,
}

impl NoiseRng {
    /// Generator seeded with `seed`; the same seed always yields the same
    /// draw sequence.
    pub fn from_seed(seed: u64) -> (r: NoiseRng)
        ensures
            r.state == seed,
    {
        NoiseRng { state: seed }
    }

    /// Draw the next 64-bit value.
    pub fn next_u64(&mut self) -> (r: u64)
        ensures
            final(self).state == spec_step(old(self).state),
            r == spec_mix(spec_step(old(self).state)),
    {
        self.state = self.state.wrapping_add(RNG_INCREMENT);
        mix(self.state)
    }

    /// The sample drawn from a raw 64-bit value: uniform over
    /// `[-WAVE_ONE, WAVE_ONE]`.
    pub open spec fn spec_unit(x: u64) -> i64 {
        ((x % (2 * crate::wave::WAVE_ONE + 1) as u64) as i64 - crate::wave::WAVE_ONE) as i64
    }

    /// Draw a sample value in `[-WAVE_ONE, WAVE_ONE]`.
    pub fn next_unit(&mut self) -> (r: i64)
        ensures
            final(self).state == spec_step(old(self).state),
            r == Self::spec_unit(spec_mix(spec_step(old(self).state))),
            -crate::wave::WAVE_ONE <= r <= crate::wave::WAVE_ONE,
    {
        let x = self.next_u64();
        (x % (2 * crate::wave::WAVE_ONE + 1) as u64) as i64 - crate::wave::WAVE_ONE
    }
}

} // verus!
