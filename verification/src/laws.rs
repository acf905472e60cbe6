//! The library's laws: properties that hold of rendering and the envelopes
//! for every input, stated and proved here rather than left implicit in the
//! individual contracts.

use vstd::prelude::*;
use crate::env::{spec_aspd, spec_boundary, spec_total_samples, SR_MAX};
use crate::net::{spec_build, spec_hp_cutoff, spec_lp_cutoff};
use crate::render::{lemma_run_len, spec_render, spec_run};
use crate::types::{Amplitude, Asyn, Filters};
use crate::wave::WAVE_ONE;

verus! {

/// Rendering is deterministic: any two buffers rendered from the same
/// sound description at the same rate are identical. `render` ensures its
/// result equals `spec_render`, so two calls can only produce this one
/// sequence.
pub proof fn lemma_render_deterministic(a: Asyn, sr: u32, b1: Seq<i16>, b2: Seq<i16>)
    requires
        b1 == spec_render(a, sr as int),
        b2 == spec_render(a, sr as int),
    ensures
        b1 == b2,
{
}

/// A rendered buffer's length is the envelope's length in milliseconds
/// times the sample rate, divided by one thousand and rounded to the
/// nearest whole sample.
#[verifier::rlimit(100)]
pub proof fn lemma_render_length(a: Asyn, sr: u32)
    requires
        a.amplitude.wf(),
    ensures
        spec_render(a, sr as int).len() == spec_total_samples(a.amplitude, sr as int),
{
    let m = spec_build(a, sr as int);
    let n = spec_total_samples(a.amplitude, sr as int);
    assert(n >= 0);
    lemma_run_len(m, n as nat);
    assert(spec_render(a, sr as int) == spec_run(m, n as nat).1);
}

/// A sound whose envelope has zero length renders to an empty buffer.
pub proof fn lemma_empty_render(a: Asyn, sr: u32)
    requires
        a.amplitude.spec_len() == 0,
        1 <= sr <= SR_MAX,
    ensures
        spec_render(a, sr as int) == Seq::<i16>::empty(),
{
    assert(spec_total_samples(a.amplitude, sr as int) == 0);
}

/// The effective low-pass and high-pass cutoffs are clamped into
/// `[0, sr / 2]` hertz (here in millihertz) at every sample, whatever the
/// filter settings — including negative cutoffs and cutoffs beyond the
/// Nyquist rate.
pub proof fn lemma_cutoff_clamped(f: Filters, i: int, total: int, sr: int)
    requires
        1 <= sr <= SR_MAX as int,
    ensures
        0 <= spec_lp_cutoff(f, i, total, sr) <= 500 * sr,
        0 <= spec_hp_cutoff(f, i, total, sr) <= 500 * sr,
{
}

/// Rendering with every filter stage at its no-op default produces the
/// same buffer as rendering with no filters at all: each stage at its
/// default is skipped outright, so the two pipelines are one and the same.
pub proof fn lemma_neutral_filters(a: Asyn, sr: u32)
    ensures
        spec_render((Asyn { filters: Some(Filters::spec_default()), ..a }), sr as int)
            == spec_render((Asyn { filters: None, ..a }), sr as int),
{
    let a1 = Asyn { filters: Some(Filters::spec_default()), ..a };
    let a2 = Asyn { filters: None, ..a };
    assert(spec_build(a1, sr as int) =~= spec_build(a2, sr as int));
}

/// Boundary monotonicity: covering more milliseconds never takes fewer
/// samples.
pub proof fn lemma_boundary_monotone(ms1: int, ms2: int, sr: int)
    requires
        0 <= ms1 <= ms2,
        1 <= sr,
    ensures
        spec_boundary(ms1, sr) <= spec_boundary(ms2, sr),
{
    assert(ms1 * sr <= ms2 * sr) by (nonlinear_arith)
        requires
            0 <= ms1 <= ms2,
            1 <= sr,
    ;
    vstd::arithmetic::div_mod::lemma_div_is_ordered(ms1 * sr + 500, ms2 * sr + 500, 1000);
}

/// The envelope ends at zero: at the sample boundary covering
/// attack + sustain + decay (and at every later sample) the gain is zero.
pub proof fn lemma_envelope_end(a: Amplitude, sr: int, i: int)
    requires
        a.wf(),
        1 <= sr <= SR_MAX as int,
        i >= spec_boundary(a.spec_len(), sr),
    ensures
        spec_aspd(a, i, sr) == 0,
{
    lemma_boundary_monotone(a.attack as int, a.attack + a.sustain, sr);
    lemma_boundary_monotone(a.attack + a.sustain, a.spec_len(), sr);
}

/// The envelope starts at zero whenever the attack covers at least one
/// sample. (At sample rates so low that a non-zero attack rounds to zero
/// samples, the first sample already lies beyond the attack and the gain
/// starts past the ramp; at audio rates every non-zero attack covers a
/// sample.)
pub proof fn lemma_envelope_start(a: Amplitude, sr: int)
    requires
        a.wf(),
        1 <= sr <= SR_MAX as int,
        spec_boundary(a.attack as int, sr) > 0,
    ensures
        spec_aspd(a, 0, sr) == 0,
{
    let pw = (a.punch * WAVE_ONE) / crate::types::MILLI as int;
    assert((WAVE_ONE - pw) * 0 == 0) by (nonlinear_arith);
    assert(0int / spec_boundary(a.attack as int, sr) == 0);
}

/// With no punch, the envelope never decreases during the attack.
pub proof fn lemma_envelope_attack_monotone(a: Amplitude, sr: int, i1: int, i2: int)
    requires
        a.wf(),
        a.punch == 0,
        1 <= sr <= SR_MAX as int,
        0 <= i1 <= i2 < spec_boundary(a.attack as int, sr),
    ensures
        spec_aspd(a, i1, sr) <= spec_aspd(a, i2, sr),
{
    let b1 = spec_boundary(a.attack as int, sr);
    let pw = (a.punch * WAVE_ONE) / crate::types::MILLI as int;
    assert(pw == 0);
    assert((WAVE_ONE - pw) * i1 <= (WAVE_ONE - pw) * i2) by (nonlinear_arith)
        requires
            0 <= i1 <= i2,
            pw == 0,
    ;
    assert(0 <= (WAVE_ONE - pw) * i1) by (nonlinear_arith)
        requires
            0 <= i1,
            pw == 0,
    ;
    assert((WAVE_ONE - pw) * i2 <= WAVE_ONE * b1) by (nonlinear_arith)
        requires
            0 <= i2 <= b1,
            pw == 0,
    ;
    crate::num::lemma_div_le_factor((WAVE_ONE - pw) * i1, WAVE_ONE as int, b1);
    crate::num::lemma_div_le_factor((WAVE_ONE - pw) * i2, WAVE_ONE as int, b1);
    vstd::arithmetic::div_mod::lemma_div_is_ordered((WAVE_ONE - pw) * i1, (WAVE_ONE - pw) * i2,
        b1);
}

/// With no punch, the envelope holds at full scale throughout the sustain.
pub proof fn lemma_envelope_sustain_constant(a: Amplitude, sr: int, i: int)
    requires
        a.wf(),
        a.punch == 0,
        1 <= sr <= SR_MAX as int,
        spec_boundary(a.attack as int, sr) <= i < spec_boundary(a.attack + a.sustain, sr),
    ensures
        spec_aspd(a, i, sr) == WAVE_ONE,
{
}

/// With no punch, the envelope never increases during the decay.
pub proof fn lemma_envelope_decay_monotone(a: Amplitude, sr: int, i1: int, i2: int)
    requires
        a.wf(),
        a.punch == 0,
        1 <= sr <= SR_MAX as int,
        spec_boundary(a.attack + a.sustain, sr) <= i1 <= i2,
    ensures
        spec_aspd(a, i2, sr) <= spec_aspd(a, i1, sr),
{
    let b1 = spec_boundary(a.attack as int, sr);
    let b2 = spec_boundary(a.attack + a.sustain, sr);
    let b3 = spec_boundary(a.attack + a.sustain + a.decay, sr);
    lemma_boundary_monotone(a.attack as int, a.attack + a.sustain, sr);
    lemma_boundary_monotone(a.attack + a.sustain, a.spec_len(), sr);
    let pw = (a.punch * WAVE_ONE) / crate::types::MILLI as int;
    assert(pw == 0);
    if i1 < b3 && i2 < b3 {
        assert((WAVE_ONE - pw) * (b3 - i2) <= (WAVE_ONE - pw) * (b3 - i1)) by (nonlinear_arith)
            requires
                i1 <= i2,
                pw == 0,
        ;
        vstd::arithmetic::div_mod::lemma_div_is_ordered((WAVE_ONE - pw) * (b3 - i2), (WAVE_ONE
            - pw) * (b3 - i1), b3 - b2);
    }
}

} // verus!
