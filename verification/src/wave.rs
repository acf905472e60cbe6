//! Waveform shaping: pure functions from an oscillator phase to a sample.
//!
//! A phase is a `u32` binary fraction of one cycle (the full `u32` range is
//! one period), so phase arithmetic wraps exactly. Samples are fixed-point
//! with [`WAVE_ONE`] standing for 1.0; every shape stays within
//! `[-2 * WAVE_ONE, 2 * WAVE_ONE]`.

use vstd::prelude::*;
use crate::num::{clamp64, div_trunc, lemma_div_bounds, spec_clamp64, spec_div_trunc, tdiv64,
    spec_tdiv64};

verus! {

/// Fixed-point unit for audio samples: this value stands for 1.0.
pub const WAVE_ONE: i64 = 65536;

/// One quarter of the phase range.
pub const PHASE_QUARTER: u32 = 0x4000_0000;

/// One half of the phase range.
pub const PHASE_HALF: u32 = 0x8000_0000;

/// Three quarters of the phase range.
pub const PHASE_THREE_QUARTERS: u32 = 0xC000_0000;

/// The phase offset `sqrt(0.75)` of the breaker shape, as a phase fraction.
pub const BREAKER_SHIFT: u32 = 0xddb3_d742;

/// Triangle shape: a piecewise-linear cycle peaking at one quarter phase.
pub open spec fn spec_triangle(p: u32) -> i64 {
    if p < PHASE_QUARTER {
        ((p * WAVE_ONE) / 0x4000_0000) as i64
    } else if p < PHASE_THREE_QUARTERS {
        (2 * WAVE_ONE - (p * WAVE_ONE) / 0x4000_0000) as i64
    } else {
        (-4 * WAVE_ONE + (p * WAVE_ONE) / 0x4000_0000) as i64
    }
}

/// Triangle wave rising from 0 to 1 over the first quarter cycle, falling
/// to -1 at three quarters, and returning to 0.
pub fn triangle(p: u32) -> (r: i64)
    ensures
        r == spec_triangle(p),
        -WAVE_ONE <= r <= WAVE_ONE,
{
    let scaled = (p as i64) * WAVE_ONE / 0x4000_0000;
    proof {
        lemma_div_bounds(p as int * WAVE_ONE as int, 0, 0xFFFF_FFFF * WAVE_ONE as int,
            0x4000_0000);
        if p < PHASE_QUARTER {
            lemma_div_bounds(p as int * WAVE_ONE as int, 0,
                (PHASE_QUARTER - 1) * WAVE_ONE as int, 0x4000_0000);
        } else if p < PHASE_THREE_QUARTERS {
            lemma_div_bounds(p as int * WAVE_ONE as int, PHASE_QUARTER as int * WAVE_ONE as int,
                (PHASE_THREE_QUARTERS - 1) * WAVE_ONE as int, 0x4000_0000);
        } else {
            lemma_div_bounds(p as int * WAVE_ONE as int,
                PHASE_THREE_QUARTERS as int * WAVE_ONE as int, 0xFFFF_FFFF * WAVE_ONE as int,
                0x4000_0000);
        }
    }
    if p < PHASE_QUARTER {
        scaled
    } else if p < PHASE_THREE_QUARTERS {
        2 * WAVE_ONE - scaled
    } else {
        -4 * WAVE_ONE + scaled
    }
}

/// Sawtooth shape: rising from 0 to 1 over the first half cycle, then from
/// -1 back up to 0.
pub open spec fn spec_saw(p: u32) -> i64 {
    if p < PHASE_HALF {
        ((p * WAVE_ONE) / 0x8000_0000) as i64
    } else {
        (-2 * WAVE_ONE + (p * WAVE_ONE) / 0x8000_0000) as i64
    }
}

/// Sawtooth wave.
pub fn saw(p: u32) -> (r: i64)
    ensures
        r == spec_saw(p),
        -WAVE_ONE <= r <= WAVE_ONE,
{
    let scaled = (p as i64) * WAVE_ONE / 0x8000_0000;
    proof {
        if p < PHASE_HALF {
            lemma_div_bounds(p as int * WAVE_ONE as int, 0, (PHASE_HALF - 1) * WAVE_ONE as int,
                0x8000_0000);
        } else {
            lemma_div_bounds(p as int * WAVE_ONE as int, PHASE_HALF as int * WAVE_ONE as int,
                0xFFFF_FFFF * WAVE_ONE as int, 0x8000_0000);
        }
    }
    if p < PHASE_HALF {
        scaled
    } else {
        -2 * WAVE_ONE + scaled
    }
}

/// The positive half-arch of the sine approximation: a parabola through 0 at
/// both ends of a half cycle, peaking at [`WAVE_ONE`].
pub open spec fn spec_sine_arch(q: int) -> int
    recommends
        0 <= q < PHASE_HALF,
{
    ((q * (PHASE_HALF - q)) / 0x4000_0000) * WAVE_ONE / 0x4000_0000
}

/// Sine shape: a parabolic approximation of `sin` over each half cycle.
pub open spec fn spec_sine(p: u32) -> i64 {
    if p < PHASE_HALF {
        spec_sine_arch(p as int) as i64
    } else {
        (-spec_sine_arch(p - PHASE_HALF)) as i64
    }
}

proof fn lemma_sine_arch_bounds(q: int)
    requires
        0 <= q < PHASE_HALF,
    ensures
        0 <= spec_sine_arch(q) <= WAVE_ONE,
{
    let m = q * (PHASE_HALF - q);
    assert(0 <= m <= 0x4000_0000 * 0x4000_0000) by (nonlinear_arith)
        requires
            0 <= q < 0x8000_0000,
            m == q * (0x8000_0000 - q),
    ;
    lemma_div_bounds(m, 0, 0x4000_0000int * 0x4000_0000, 0x4000_0000);
    let m1 = m / 0x4000_0000;
    assert(0 <= m1 <= 0x4000_0000);
    lemma_div_bounds(m1 * WAVE_ONE as int, 0, 0x4000_0000 * WAVE_ONE as int, 0x4000_0000);
}

/// Parabolic sine wave: positive arch on the first half cycle, mirrored
/// negative arch on the second.
pub fn sine(p: u32) -> (r: i64)
    ensures
        r == spec_sine(p),
        -WAVE_ONE <= r <= WAVE_ONE,
{
    let q: i64 = if p < PHASE_HALF {
        p as i64
    } else {
        (p - PHASE_HALF) as i64
    };
    proof {
        lemma_sine_arch_bounds(q as int);
    }
    let m = q * (PHASE_HALF as i64 - q);
    let arch = m / 0x4000_0000 * WAVE_ONE / 0x4000_0000;
    if p < PHASE_HALF {
        arch
    } else {
        -arch
    }
}

/// Cosine: the sine shape advanced by a quarter cycle, so it starts at 1.
pub open spec fn spec_cosine(p: u32) -> i64 {
    spec_sine(vstd::wrapping::u32_specs::wrapping_add(p, PHASE_QUARTER))
}

/// Cosine wave, used by the tremolo so modulation starts at unity gain.
pub fn cosine(p: u32) -> (r: i64)
    ensures
        r == spec_cosine(p),
        -WAVE_ONE <= r <= WAVE_ONE,
{
    sine(p.wrapping_add(PHASE_QUARTER))
}

/// Tangent shape: `0.3 * tan(pi * x)` clamped into `[-2, 2]`, built from the
/// parabolic sine and cosine of the half-angle.
pub open spec fn spec_tangent(p: u32) -> i64 {
    let s = spec_sine((p / 2) as u32);
    let c = spec_sine((p / 2 + PHASE_QUARTER) as u32);
    if c == 0 {
        if s >= 0 {
            (2 * WAVE_ONE) as i64
        } else {
            (-2 * WAVE_ONE) as i64
        }
    } else {
        spec_clamp64(-2 * WAVE_ONE, 2 * WAVE_ONE,
            spec_div_trunc(3 * s * WAVE_ONE, 10 * c)) as i64
    }
}

/// Clipped tangent wave.
pub fn tangent(p: u32) -> (r: i64)
    ensures
        r == spec_tangent(p),
        -2 * WAVE_ONE <= r <= 2 * WAVE_ONE,
{
    let h = p / 2;
    let s = sine(h);
    let c = sine(h + PHASE_QUARTER);
    if c == 0 {
        if s >= 0 {
            2 * WAVE_ONE
        } else {
            -2 * WAVE_ONE
        }
    } else {
        let q = div_trunc(3 * s * WAVE_ONE, 10 * c);
        clamp64(-2 * WAVE_ONE, 2 * WAVE_ONE, q)
    }
}

/// Whistle shape: the fundamental sine plus a quieter partial at ten times
/// the frequency, mixed three to one.
pub open spec fn spec_whistle(p: u32) -> i64 {
    spec_tdiv64(3 * spec_sine(p) + spec_sine(vstd::wrapping::u32_specs::wrapping_mul(p, 10)),
        4) as i64
}

/// Whistle wave.
pub fn whistle(p: u32) -> (r: i64)
    ensures
        r == spec_whistle(p),
        -WAVE_ONE <= r <= WAVE_ONE,
{
    let a = sine(p);
    let b = sine(p.wrapping_mul(10));
    tdiv64(3 * a + b, 4)
}

/// Breaker shape: a phase-shifted reflected parabola with a slight negative
/// bias.
pub open spec fn spec_breaker(p: u32) -> i64 {
    let x = vstd::wrapping::u32_specs::wrapping_add(p, BREAKER_SHIFT) as int;
    let f2 = (x * x) / 0x1_0000_0000;
    let inner = WAVE_ONE - (f2 * WAVE_ONE) / 0x8000_0000;
    (-(WAVE_ONE / 10) + 2 * (if inner >= 0 {
        inner
    } else {
        -inner
    })) as i64
}

/// Breaker wave.
pub fn breaker(p: u32) -> (r: i64)
    ensures
        r == spec_breaker(p),
        -2 * WAVE_ONE <= r <= 2 * WAVE_ONE,
{
    let x = p.wrapping_add(BREAKER_SHIFT) as u64;
    proof {
        assert(0 <= x * x <= 0xFFFF_FFFF * 0xFFFF_FFFF) by (nonlinear_arith)
            requires
                0 <= x <= 0xFFFF_FFFF,
        ;
        lemma_div_bounds(x as int * x as int, 0, 0xFFFF_FFFFint * 0xFFFF_FFFF, 0x1_0000_0000);
    }
    let f2 = (x * x / 0x1_0000_0000) as i64;
    proof {
        lemma_div_bounds(f2 as int * WAVE_ONE as int, 0, 0x1_0000_0000 * WAVE_ONE as int,
            0x8000_0000);
    }
    let inner = WAVE_ONE - f2 * WAVE_ONE / 0x8000_0000;
    let mag = if inner >= 0 {
        inner
    } else {
        -inner
    };
    -(WAVE_ONE / 10) + 2 * mag
}

} // verus!
