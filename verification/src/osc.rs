//! Stateful oscillator units: the phase-accumulator family, the square wave
//! with a live duty input, and the noise generator.
//!
//! Each unit advances by one sample at a time; its step and output are
//! pinned exactly by spec functions of the previous state and the inputs,
//! so an oscillator's whole output stream is a pure function of its seed
//! and its frequency inputs.

use vstd::prelude::*;
use crate::env::{sr_ok, PITCH_MAX_MHZ};
use crate::num::{lemma_div_le_factor, lemma_tdiv_between, spec_tdiv64, tdiv64};
use crate::rng::{spec_mix, spec_step, NoiseRng};
use crate::types::Waveform;
use crate::wave::{breaker, saw, sine, spec_breaker, spec_saw, spec_sine, spec_tangent,
    spec_triangle, spec_whistle, tangent, triangle, whistle, WAVE_ONE};

verus! {

/// The phase advance per sample for a tone of `f` millihertz at rate `sr`,
/// as a binary fraction of one cycle (whole cycles wrap away).
pub open spec fn spec_phase_inc(f: int, sr: int) -> u32 {
    (((f * 0x1_0000_0000) / (1000 * sr)) % 0x1_0000_0000) as u32
}

/// Per-sample phase increment for frequency `f` at rate `sr`.
pub fn phase_inc(f: i64, sr: u32) -> (r: u32)
    requires
        0 <= f <= PITCH_MAX_MHZ,
        sr_ok(sr),
    ensures
        r == spec_phase_inc(f as int, sr as int),
{
    proof {
        assert(0 <= f * 0x1_0000_0000 <= PITCH_MAX_MHZ * 0x1_0000_0000) by (nonlinear_arith)
            requires
                0 <= f <= PITCH_MAX_MHZ,
        ;
        vstd::arithmetic::div_mod::lemma_div_pos_is_pos(f as int * 0x1_0000_0000,
            1000 * sr as int);
        vstd::arithmetic::div_mod::lemma_mod_bound((f as int * 0x1_0000_0000) / (1000
            * sr as int), 0x1_0000_0000);
    }
    let q = f * 0x1_0000_0000 / (1000 * (sr as i64));
    (q % 0x1_0000_0000) as u32
}

/// A phase-accumulator oscillator: a phase in `[0, 1)` cycles advanced by
/// `frequency / sample_rate` each tick and shaped by the waveform's
/// function.
#[derive(Clone, Copy, Debug, PartialEq, Eq, Structural)]
pub struct PhaseOsc {
    pub shape: Waveform,
    pub phase: u32,
}

impl PhaseOsc {
    /// The shapes a phase oscillator can carry: everything but the noise
    /// family and the square wave, which have units of their own.
    pub open spec fn wf(self) -> bool {
        self.shape == Waveform::Sine || self.shape == Waveform::Triangle || self.shape
            == Waveform::Saw || self.shape == Waveform::Tangent || self.shape == Waveform::Whistle
            || self.shape == Waveform::Breaker
    }

    /// The state after one tick at frequency `f`.
    pub open spec fn spec_step(self, f: int, sr: int) -> PhaseOsc {
        PhaseOsc {
            shape: self.shape,
            phase: vstd::wrapping::u32_specs::wrapping_add(self.phase, spec_phase_inc(f, sr)),
        }
    }

    /// The sample the waveform shapes out of phase `p`.
    pub open spec fn spec_shape(w: Waveform, p: u32) -> i64 {
        match w {
            Waveform::Triangle => spec_triangle(p),
            Waveform::Saw => spec_saw(p),
            Waveform::Tangent => spec_tangent(p),
            Waveform::Whistle => spec_whistle(p),
            Waveform::Breaker => spec_breaker(p),
            _ => spec_sine(p),
        }
    }

    /// An oscillator starting at the given phase.
    pub fn with_phase(shape: Waveform, phase: u32) -> (r: PhaseOsc)
        ensures
            r.shape == shape,
            r.phase == phase,
    {
        PhaseOsc { shape, phase }
    }

    /// An oscillator starting at phase zero.
    pub fn new(shape: Waveform) -> (r: PhaseOsc)
        ensures
            r.shape == shape,
            r.phase == 0,
    {
        PhaseOsc { shape, phase: 0 }
    }

    /// Rewind the phase to zero, as re-seeding does for stateless shapes.
    pub fn reset(&mut self)
        ensures
            final(self).shape == old(self).shape,
            final(self).phase == 0,
    {
        self.phase = 0;
    }

    /// Advance one sample at frequency `f` millihertz and emit the shaped
    /// sample.
    pub fn tick(&mut self, f: i64, sr: u32) -> (r: i64)
        requires
            old(self).wf(),
            0 <= f <= PITCH_MAX_MHZ,
            sr_ok(sr),
        ensures
            *final(self) == old(self).spec_step(f as int, sr as int),
            final(self).wf(),
            r == PhaseOsc::spec_shape(final(self).shape, final(self).phase),
            -2 * WAVE_ONE <= r <= 2 * WAVE_ONE,
    {
        let inc = phase_inc(f, sr);
        self.phase = self.phase.wrapping_add(inc);
        match self.shape {
            Waveform::Triangle => triangle(self.phase),
            Waveform::Saw => saw(self.phase),
            Waveform::Tangent => tangent(self.phase),
            Waveform::Whistle => whistle(self.phase),
            Waveform::Breaker => breaker(self.phase),
            _ => sine(self.phase),
        }
    }
}

/// The square oscillator: a phase accumulator whose output is high while
/// the phase sits below a live duty threshold.
#[derive(Clone, Copy, Debug, PartialEq, Eq, Structural)]
pub struct Square {
    pub phase: u32,
}

impl Square {
    /// The state after one tick at frequency `f`.
    pub open spec fn spec_step(self, f: int, sr: int) -> Square {
        Square { phase: vstd::wrapping::u32_specs::wrapping_add(self.phase, spec_phase_inc(f, sr)) }
    }

    /// The output at phase `p` under duty threshold `duty`.
    pub open spec fn spec_out(p: u32, duty: u64) -> i64 {
        if (p as u64) < duty {
            WAVE_ONE
        } else {
            (-WAVE_ONE) as i64
        }
    }

    /// A square oscillator starting at the given phase.
    pub fn with_phase(phase: u32) -> (r: Square)
        ensures
            r.phase == phase,
    {
        Square { phase }
    }

    /// A square oscillator starting at phase zero.
    pub fn new() -> (r: Square)
        ensures
            r.phase == 0,
    {
        Square { phase: 0 }
    }

    /// Rewind the phase to zero.
    pub fn reset(&mut self)
        ensures
            final(self).phase == 0,
    {
        self.phase = 0;
    }

    /// Advance one sample at frequency `f` and duty threshold `duty` (a
    /// binary fraction of the cycle in `[0, 2^32]`).
    pub fn tick(&mut self, f: i64, duty: u64, sr: u32) -> (r: i64)
        requires
            0 <= f <= PITCH_MAX_MHZ,
            sr_ok(sr),
        ensures
            *final(self) == old(self).spec_step(f as int, sr as int),
            r == Square::spec_out(final(self).phase, duty),
            -WAVE_ONE <= r <= WAVE_ONE,
    {
        let inc = phase_inc(f, sr);
        self.phase = self.phase.wrapping_add(inc);
        if (self.phase as u64) < duty {
            WAVE_ONE
        } else {
            -WAVE_ONE
        }
    }
}

/// The noise generator: holds two consecutive uniform samples and a phase
/// running at twice the input rate; each phase wrap shifts in a freshly
/// drawn sample. The internal generator is seeded only from the unit's
/// assigned stage seed.
#[derive(Clone, Copy, Debug, PartialEq, Eq, Structural)]
pub struct Noise {
    pub v0: i64,
    pub v1: i64,
    pub phase: u32,
    pub interpolate: bool,
    pub rng: NoiseRng,
}

impl Noise {
    /// Held samples stay within one unit.
    pub open spec fn wf(self) -> bool {
        &&& -WAVE_ONE <= self.v0 <= WAVE_ONE
        &&& -WAVE_ONE <= self.v1 <= WAVE_ONE
    }

    /// The generator freshly seeded with `seed`: silence behind one drawn
    /// sample, at phase zero.
    pub open spec fn spec_new(seed: u64, interpolate: bool) -> Noise {
        Noise {
            v0: 0,
            v1: NoiseRng::spec_unit(spec_mix(spec_step(seed))),
            phase: 0,
            interpolate,
            rng: NoiseRng { state: spec_step(seed) },
        }
    }

    /// The state after one tick at rate input `f`: the phase runs at twice
    /// the frequency scale, and a wrap shifts the held pair.
    pub open spec fn spec_step(self, f: int, sr: int) -> Noise {
        let inc = (2 * f * 0x1_0000_0000) / (1000 * sr);
        let sum = self.phase + inc;
        if sum >= 0x1_0000_0000 {
            Noise {
                v0: self.v1,
                v1: NoiseRng::spec_unit(spec_mix(spec_step(self.rng.state))),
                phase: (sum % 0x1_0000_0000) as u32,
                interpolate: self.interpolate,
                rng: NoiseRng { state: spec_step(self.rng.state) },
            }
        } else {
            Noise { phase: sum as u32, ..self }
        }
    }

    /// The output of state `n`: the newest sample, or the pair interpolated
    /// across the sub-phase.
    pub open spec fn spec_out(n: Noise) -> i64 {
        if n.interpolate {
            (n.v0 + spec_tdiv64((n.v1 - n.v0) * n.phase, 0x1_0000_0000)) as i64
        } else {
            n.v1
        }
    }

    /// A noise unit seeded with `seed`.
    pub fn new(seed: u64, interpolate: bool) -> (r: Noise)
        ensures
            r == Noise::spec_new(seed, interpolate),
            r.wf(),
    {
        let mut rng = NoiseRng::from_seed(seed);
        let v1 = rng.next_unit();
        Noise { v0: 0, v1, phase: 0, interpolate, rng }
    }

    /// Re-seed in place, discarding all held state.
    pub fn reset(&mut self, seed: u64)
        ensures
            *final(self) == Noise::spec_new(seed, old(self).interpolate),
            final(self).wf(),
    {
        let n = Noise::new(seed, self.interpolate);
        *self = n;
    }

    /// Advance one sample at rate input `f` millihertz and emit the noise
    /// sample.
    pub fn tick(&mut self, f: i64, sr: u32) -> (r: i64)
        requires
            old(self).wf(),
            0 <= f <= PITCH_MAX_MHZ,
            sr_ok(sr),
        ensures
            *final(self) == old(self).spec_step(f as int, sr as int),
            final(self).wf(),
            r == Noise::spec_out(*final(self)),
            -WAVE_ONE <= r <= WAVE_ONE,
    {
        proof {
            assert(0 <= 2 * f * 0x1_0000_0000 <= (2 * PITCH_MAX_MHZ * 0x1_0000_0000) * (1000
                * sr)) by (nonlinear_arith)
                requires
                    0 <= f <= PITCH_MAX_MHZ,
                    1 <= sr,
            ;
            lemma_div_le_factor(2 * f as int * 0x1_0000_0000, 2 * PITCH_MAX_MHZ * 0x1_0000_0000,
                1000 * sr as int);
        }
        let inc = 2 * f * 0x1_0000_0000 / (1000 * (sr as i64));
        let sum = (self.phase as i64) + inc;
        if sum >= 0x1_0000_0000 {
            self.v0 = self.v1;
            self.v1 = self.rng.next_unit();
            self.phase = (sum % 0x1_0000_0000) as u32;
        } else {
            self.phase = sum as u32;
        }
        if self.interpolate {
            let d = self.v1 - self.v0;
            proof {
                if d >= 0 {
                    assert(0 <= d * self.phase <= d * 0x1_0000_0000) by (nonlinear_arith)
                        requires
                            0 <= d,
                            0 <= self.phase <= 0x1_0000_0000,
                    ;
                    lemma_tdiv_between(d as int * self.phase as int, 0, d as int, 0x1_0000_0000);
                } else {
                    assert(d * 0x1_0000_0000 <= d * self.phase <= 0) by (nonlinear_arith)
                        requires
                            d < 0,
                            0 <= self.phase <= 0x1_0000_0000,
                    ;
                    lemma_tdiv_between(d as int * self.phase as int, d as int, 0, 0x1_0000_0000);
                }
            }
            self.v0 + tdiv64(d * (self.phase as i64), 0x1_0000_0000)
        } else {
            self.v1
        }
    }
}

} // verus!
