//! Envelope evaluators: pure functions of the sample index producing the
//! instantaneous amplitude gain, tremolo gain, pitch in millihertz and
//! square duty.
//!
//! Each evaluator takes the sample index `i` and the sample rate `sr`
//! directly instead of a pre-divided time value, so the curves are exact at
//! every sample with no intermediate rounding.

use vstd::prelude::*;
use crate::num::{clamp64, lemma_div_bounds, lemma_div_le_factor, lemma_frac_scale_bound,
    spec_clamp64, spec_round_div, spec_tdiv64, round_div64, tdiv64};
use crate::types::{Amplitude, Pitch, MILLI};
use crate::wave::{sine, cosine, spec_sine, spec_cosine, WAVE_ONE};

verus! {

/// Highest sample rate the pipeline is proved against (one megahertz),
/// far above any audio hardware; the bound keeps all phase arithmetic
/// inside 64 bits.
pub const SR_MAX: u32 = 1_000_000;

/// Highest instantaneous pitch the curve will emit, in millihertz.
pub const PITCH_MAX_MHZ: i64 = 1_000_000_000;

/// A sample rate the renderer accepts.
pub open spec fn sr_ok(sr: u32) -> bool {
    1 <= sr <= SR_MAX
}

/// A sample index the envelopes are proved for: anything up to the longest
/// renderable buffer.
pub open spec fn sample_ok(i: i64) -> bool {
    0 <= i <= 20_000_000
}

/// The number of whole samples covering the first `ms` milliseconds:
/// `ms * sr / 1000` rounded to nearest.
pub open spec fn spec_boundary(ms: int, sr: int) -> int {
    spec_round_div(ms * sr, 1000)
}

/// Sample count covering `ms` milliseconds at rate `sr`.
pub fn boundary(ms: i64, sr: u32) -> (r: i64)
    requires
        0 <= ms <= 15_000,
        sr_ok(sr),
    ensures
        r == spec_boundary(ms as int, sr as int),
        0 <= r <= 15_000_001,
{
    proof {
        assert(ms * sr <= 15_000 * (SR_MAX as int)) by (nonlinear_arith)
            requires
                0 <= ms <= 15_000,
                0 < sr <= SR_MAX as int,
        ;
        assert(ms * sr >= 0) by (nonlinear_arith)
            requires
                ms >= 0,
                sr >= 0,
        ;
        crate::num::lemma_div_le_factor(ms as int * sr as int + 500, 15_000_001, 1000);
    }
    round_div64(ms * (sr as i64), 1000)
}

/// Total number of samples a sound renders to: its length in milliseconds
/// times the sample rate, rounded to the nearest whole sample.
pub open spec fn spec_total_samples(a: Amplitude, sr: int) -> int {
    spec_boundary(a.spec_len(), sr)
}

/// The length of the rendered buffer for amplitude envelope `a` at rate
/// `sr`.
pub fn total_samples(a: &Amplitude, sr: u32) -> (r: i64)
    requires
        a.wf(),
        sr_ok(sr),
    ensures
        r == spec_total_samples(*a, sr as int),
        0 <= r <= 15_000_001,
        a.spec_len() == 0 ==> r == 0,
{
    let len = a.len();
    boundary(len, sr)
}

/// The amplitude envelope gain at sample `i`, scaled by `WAVE_ONE`:
/// a linear attack to `1 - punch`, sustain recovering from the punch dip to
/// one, then a linear decay to zero ending exactly at the last boundary.
pub open spec fn spec_aspd(a: Amplitude, i: int, sr: int) -> i64 {
    let b1 = spec_boundary(a.attack as int, sr);
    let b2 = spec_boundary(a.attack + a.sustain, sr);
    let b3 = spec_boundary(a.attack + a.sustain + a.decay, sr);
    let pw = (a.punch * WAVE_ONE) / MILLI as int;
    if i < b1 {
        (((WAVE_ONE - pw) * i) / b1) as i64
    } else if i < b2 {
        if a.punch > 0 {
            (WAVE_ONE - (pw * (i - b1)) / (b2 - b1)) as i64
        } else {
            WAVE_ONE
        }
    } else if i < b3 {
        spec_clamp64(0, WAVE_ONE as int, ((WAVE_ONE - pw) * (b3 - i)) / (b3 - b2)) as i64
    } else {
        0
    }
}

/// Amplitude envelope gain at sample `i`, in `[0, WAVE_ONE]`.
pub fn aspd(a: &Amplitude, i: i64, sr: u32) -> (r: i64)
    requires
        a.wf(),
        sr_ok(sr),
        0 <= i,
    ensures
        r == spec_aspd(*a, i as int, sr as int),
        0 <= r <= WAVE_ONE,
{
    let b1 = boundary(a.attack, sr);
    let b2 = boundary(a.attack + a.sustain, sr);
    let b3 = boundary(a.attack + a.sustain + a.decay, sr);
    let pw = a.punch * WAVE_ONE / MILLI;
    proof {
        assert(0 <= a.punch * WAVE_ONE <= MILLI * WAVE_ONE) by (nonlinear_arith)
            requires
                0 <= a.punch <= MILLI as int,
        ;
        lemma_div_le_factor(a.punch * WAVE_ONE, WAVE_ONE as int, MILLI as int);
    }
    if i < b1 {
        proof {
            assert(0 <= (WAVE_ONE - pw) * i <= WAVE_ONE * b1) by (nonlinear_arith)
                requires
                    0 <= WAVE_ONE - pw <= WAVE_ONE,
                    0 <= i <= b1,
            ;
            lemma_div_le_factor((WAVE_ONE - pw) * i, WAVE_ONE as int, b1 as int);
        }
        (WAVE_ONE - pw) * i / b1
    } else if i < b2 {
        if a.punch > 0 {
            proof {
                assert(0 <= pw * (i - b1) <= WAVE_ONE * (b2 - b1)) by (nonlinear_arith)
                    requires
                        0 <= pw <= WAVE_ONE,
                        0 <= i - b1 <= b2 - b1,
                ;
                lemma_div_le_factor(pw * (i - b1), WAVE_ONE as int, (b2 - b1) as int);
            }
            WAVE_ONE - pw * (i - b1) / (b2 - b1)
        } else {
            WAVE_ONE
        }
    } else if i < b3 {
        proof {
            assert(0 <= (WAVE_ONE - pw) * (b3 - i) <= WAVE_ONE * (b3 - b2)) by (nonlinear_arith)
                requires
                    0 <= WAVE_ONE - pw <= WAVE_ONE,
                    0 <= b3 - i <= b3 - b2,
            ;
            lemma_div_le_factor((WAVE_ONE - pw) * (b3 - i), WAVE_ONE as int, (b3 - b2) as int);
        }
        clamp64(0, WAVE_ONE, (WAVE_ONE - pw) * (b3 - i) / (b3 - b2))
    } else {
        0
    }
}

/// The phase, as a binary fraction of one cycle, reached at sample `i` by a
/// clock of `f` millihertz: the fractional part of `f * i / (1000 * sr)`.
pub open spec fn spec_cycle_phase(f: int, i: int, sr: int) -> u32 {
    (((f * i) % (1000 * sr)) * 0x1_0000_0000 / (1000 * sr)) as u32
}

/// Phase of a periodic clock of `f` millihertz at sample `i`.
pub fn cycle_phase(f: i64, i: i64, sr: u32) -> (r: u32)
    requires
        0 <= f <= PITCH_MAX_MHZ,
        sample_ok(i),
        sr_ok(sr),
    ensures
        r == spec_cycle_phase(f as int, i as int, sr as int),
{
    let m = 1000 * (sr as i64);
    proof {
        assert(0 <= f * i <= PITCH_MAX_MHZ * 20_000_000) by (nonlinear_arith)
            requires
                0 <= f <= PITCH_MAX_MHZ,
                0 <= i <= 20_000_000,
        ;
        vstd::arithmetic::div_mod::lemma_mod_bound(f as int * i as int, m as int);
        lemma_frac_scale_bound((f as int * i as int) % (m as int), m as int);
    }
    let pos = (f * i) % m;
    let r = pos * 0x1_0000_0000 / m;
    r as u32
}

/// The tremolo gain at sample `i`, scaled by `WAVE_ONE`:
/// `1 - depth * (0.5 + 0.5 * cos(2 pi * frequency * t))`, so modulation
/// starts at unity gain and dips by at most `depth`.
pub open spec fn spec_tremolo(depth: int, frequency: int, i: int, sr: int) -> i64 {
    let dw = (depth * WAVE_ONE) / MILLI as int;
    let c = spec_cosine(spec_cycle_phase(frequency, i, sr));
    (WAVE_ONE - (dw * (WAVE_ONE + c)) / (2 * WAVE_ONE)) as i64
}

/// Tremolo gain at sample `i`, in `[0, WAVE_ONE]`.
pub fn tremolo(depth: i64, frequency: i64, i: i64, sr: u32) -> (r: i64)
    requires
        0 <= depth <= MILLI,
        0 <= frequency <= 1_000_000,
        sample_ok(i),
        sr_ok(sr),
    ensures
        r == spec_tremolo(depth as int, frequency as int, i as int, sr as int),
        0 <= r <= WAVE_ONE,
{
    let dw = depth * WAVE_ONE / MILLI;
    proof {
        assert(0 <= depth * WAVE_ONE <= MILLI * WAVE_ONE) by (nonlinear_arith)
            requires
                0 <= depth <= MILLI as int,
        ;
        lemma_div_le_factor(depth * WAVE_ONE, WAVE_ONE as int, MILLI as int);
    }
    let c = cosine(cycle_phase(frequency, i, sr));
    proof {
        assert(0 <= dw * (WAVE_ONE + c) <= WAVE_ONE * (2 * WAVE_ONE)) by (nonlinear_arith)
            requires
                0 <= dw <= WAVE_ONE,
                0 <= WAVE_ONE + c <= 2 * WAVE_ONE,
        ;
        lemma_div_le_factor(dw * (WAVE_ONE + c), WAVE_ONE as int, 2 * WAVE_ONE as int);
    }
    WAVE_ONE - dw * (WAVE_ONE + c) / (2 * WAVE_ONE)
}

/// The vibrato term added to the pitch, in millihertz:
/// `1 - depth * sin(2 pi * frequency * t)`, expressed over the fixed-point
/// sine.
pub open spec fn spec_vibrato(depth: int, frequency: int, i: int, sr: int) -> i64 {
    let s = spec_sine(spec_cycle_phase(frequency, i, sr));
    (MILLI as int - spec_tdiv64(depth * s, WAVE_ONE as int)) as i64
}

/// Vibrato offset in millihertz at sample `i`; within `depth` of one
/// millihertz either way.
pub fn vibrato(depth: i64, frequency: i64, i: i64, sr: u32) -> (r: i64)
    requires
        0 <= depth <= 1_000_000,
        0 <= frequency <= 1_000_000,
        sample_ok(i),
        sr_ok(sr),
    ensures
        r == spec_vibrato(depth as int, frequency as int, i as int, sr as int),
        MILLI - depth <= r <= MILLI + depth,
{
    let s = sine(cycle_phase(frequency, i, sr));
    proof {
        assert(-(depth * WAVE_ONE) <= depth * s <= depth * WAVE_ONE) by (nonlinear_arith)
            requires
                0 <= depth,
                -(WAVE_ONE as int) <= s <= WAVE_ONE as int,
        ;
        crate::num::lemma_tdiv_bound(depth as int * s as int, depth as int, WAVE_ONE as int);
    }
    MILLI - tdiv64(depth * s, WAVE_ONE)
}

/// Position inside the repeat cycle at sample `i`, as a binary fraction of
/// one cycle. With a repeat clock the position wraps at the clock's rate;
/// without one it runs once from zero toward one over the whole sound.
pub open spec fn spec_repeat_pos(p: Pitch, i: int, sr: int, erf: int, total: int) -> u32 {
    if p.repeat_frequency > 0 {
        spec_cycle_phase(erf, i, sr)
    } else {
        ((i * 0x1_0000_0000) / total) as u32
    }
}

/// The instantaneous pitch in millihertz at sample `i`: base frequency plus
/// linear and quadratic sweeps over the repeat position, scaled by any
/// triggered jumps, shifted by vibrato, clamped to
/// `[0, PITCH_MAX_MHZ]`.
pub open spec fn spec_pitch_at(p: Pitch, i: int, sr: int, erf: int, total: int) -> i64 {
    let tr = spec_repeat_pos(p, i, sr, erf, total) as int;
    let f0 = p.frequency + spec_tdiv64(p.frequency_sweep * tr, 0x1_0000_0000) + spec_tdiv64(
        spec_tdiv64(p.frequency_delta_sweep * tr, 0x1_0000_0000) * tr,
        0x1_0000_0000,
    );
    let f1 = if tr > (p.frequency_jump1.onset * 0x1_0000_0000) / MILLI as int {
        spec_tdiv64(f0 * (MILLI + p.frequency_jump1.amount), MILLI as int)
    } else {
        f0
    };
    let f2 = if tr > (p.frequency_jump2.onset * 0x1_0000_0000) / MILLI as int {
        spec_tdiv64(f1 * (MILLI + p.frequency_jump2.amount), MILLI as int)
    } else {
        f1
    };
    let f3 = if p.vibrato_depth > 0 && p.vibrato_frequency > 0 {
        f2 + spec_vibrato(p.vibrato_depth as int, p.vibrato_frequency as int, i, sr)
    } else {
        f2
    };
    spec_clamp64(0, PITCH_MAX_MHZ as int, f3) as i64
}

impl Pitch {
    /// The pitch curve at sample `i`, together with the repeat-cycle
    /// position that waveform parameters sweeping in sync with the pitch
    /// consume.
    ///
    /// `erf` is the effective repeat rate in millihertz and `total` the
    /// buffer length in samples, both fixed once per render.
    pub fn at(&self, i: i64, sr: u32, erf: i64, total: i64) -> (r: (i64, u32))
        requires
            self.wf(),
            sample_ok(i),
            sr_ok(sr),
            0 <= erf <= 1_000_000,
            0 < total <= 20_000_000,
            i < total,
        ensures
            r.1 == spec_repeat_pos(*self, i as int, sr as int, erf as int, total as int),
            r.0 == spec_pitch_at(*self, i as int, sr as int, erf as int, total as int),
            0 <= r.0 <= PITCH_MAX_MHZ,
    {
        let tr32: u32 = if self.repeat_frequency > 0 {
            cycle_phase(erf, i, sr)
        } else {
            proof {
                assert(0 <= i * 0x1_0000_0000) by (nonlinear_arith)
                    requires
                        i >= 0,
                ;
                lemma_frac_scale_bound(i as int, total as int);
                assert((i as int * 0x1_0000_0000) / (total as int) < 0x1_0000_0000);
            }
            ((i * 0x1_0000_0000) / total) as u32
        };
        let tr = tr32 as i64;
        proof {
            assert(-10_000_000int * 0x1_0000_0000 <= self.frequency_sweep * tr
                <= 10_000_000int * 0x1_0000_0000) by (nonlinear_arith)
                requires
                    -10_000_000 <= self.frequency_sweep <= 10_000_000,
                    0 <= tr <= 0x1_0000_0000,
            ;
            assert(-10_000_000int * 0x1_0000_0000 <= self.frequency_delta_sweep * tr
                <= 10_000_000int * 0x1_0000_0000) by (nonlinear_arith)
                requires
                    -10_000_000 <= self.frequency_delta_sweep <= 10_000_000,
                    0 <= tr <= 0x1_0000_0000,
            ;
        }
        let sweep_term = tdiv64(self.frequency_sweep * tr, 0x1_0000_0000);
        let delta_part = tdiv64(self.frequency_delta_sweep * tr, 0x1_0000_0000);
        proof {
            assert(-10_000_000int * 0x1_0000_0000 <= delta_part * tr <= 10_000_000int
                * 0x1_0000_0000) by (nonlinear_arith)
                requires
                    -10_000_000 <= delta_part <= 10_000_000,
                    0 <= tr <= 0x1_0000_0000,
            ;
        }
        let delta_term = tdiv64(delta_part * tr, 0x1_0000_0000);
        let f0 = self.frequency + sweep_term + delta_term;
        proof {
            assert(0 <= self.frequency_jump1.onset * 0x1_0000_0000 <= MILLI as int
                * 0x1_0000_0000) by (nonlinear_arith)
                requires
                    0 <= self.frequency_jump1.onset <= MILLI as int,
            ;
            assert(0 <= self.frequency_jump2.onset * 0x1_0000_0000 <= MILLI as int
                * 0x1_0000_0000) by (nonlinear_arith)
                requires
                    0 <= self.frequency_jump2.onset <= MILLI as int,
            ;
            lemma_div_le_factor(self.frequency_jump1.onset * 0x1_0000_0000, 0x1_0000_0000,
                MILLI as int);
            lemma_div_le_factor(self.frequency_jump2.onset * 0x1_0000_0000, 0x1_0000_0000,
                MILLI as int);
        }
        let f1 = if tr > self.frequency_jump1.onset * 0x1_0000_0000 / MILLI {
            proof {
                assert(-(40_000_000int * 101_000) <= f0 * (MILLI
                    + self.frequency_jump1.amount) <= 40_000_000int * 101_000)
                    by (nonlinear_arith)
                    requires
                        -40_000_000 <= f0 <= 40_000_000,
                        -101_000 <= MILLI + self.frequency_jump1.amount <= 101_000,
                ;
            }
            tdiv64(f0 * (MILLI + self.frequency_jump1.amount), MILLI)
        } else {
            f0
        };
        let f2 = if tr > self.frequency_jump2.onset * 0x1_0000_0000 / MILLI {
            proof {
                assert(-(4_040_000_000_000int * 101_000) <= f1 * (MILLI
                    + self.frequency_jump2.amount) <= 4_040_000_000_000int * 101_000)
                    by (nonlinear_arith)
                    requires
                        -4_040_000_000_000 <= f1 <= 4_040_000_000_000,
                        -101_000 <= MILLI + self.frequency_jump2.amount <= 101_000,
                ;
            }
            tdiv64(f1 * (MILLI + self.frequency_jump2.amount), MILLI)
        } else {
            f1
        };
        let f3 = if self.vibrato_depth > 0 && self.vibrato_frequency > 0 {
            f2 + vibrato(self.vibrato_depth, self.vibrato_frequency, i, sr)
        } else {
            f2
        };
        let f = clamp64(0, PITCH_MAX_MHZ, f3);
        (f, tr32)
    }
}

/// The square duty threshold at repeat position `tr`, as a binary fraction
/// of one cycle in `[0, 2^32]`: the duty setting plus its sweep over the
/// repeat cycle, mapped linearly into `[0.01, 0.99]` and clamped.
pub open spec fn spec_duty_at(duty: int, sweep: int, tr: int) -> u64 {
    let d = duty + spec_tdiv64(sweep * tr, 0x1_0000_0000);
    let dm = spec_clamp64(0, MILLI as int, 10 + spec_tdiv64(980 * d, MILLI as int));
    ((dm * 0x1_0000_0000) / MILLI as int) as u64
}

/// Duty threshold for the square oscillator at repeat position `tr`.
pub fn duty_at(duty: i64, sweep: i64, tr: u32) -> (r: u64)
    requires
        0 <= duty <= MILLI,
        -MILLI <= sweep <= MILLI,
    ensures
        r == spec_duty_at(duty as int, sweep as int, tr as int),
        r <= 0x1_0000_0000,
{
    proof {
        assert(-(MILLI as int) * 0x1_0000_0000 <= sweep * tr <= MILLI as int * 0x1_0000_0000)
            by (nonlinear_arith)
            requires
                -(MILLI as int) <= sweep <= MILLI as int,
                0 <= tr <= 0x1_0000_0000,
        ;
    }
    let swept = tdiv64(sweep * (tr as i64), 0x1_0000_0000);
    let d = duty + swept;
    let dm = clamp64(0, MILLI, 10 + tdiv64(980 * d, MILLI));
    proof {
        assert(0 <= dm * 0x1_0000_0000 <= MILLI as int * 0x1_0000_0000) by (nonlinear_arith)
            requires
                0 <= dm <= MILLI as int,
        ;
        lemma_div_le_factor(dm * 0x1_0000_0000, 0x1_0000_0000, MILLI as int);
    }
    (dm * 0x1_0000_0000 / MILLI) as u64
}

} // verus!
