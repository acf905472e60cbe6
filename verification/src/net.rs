//! The signal pipeline: the harmonic bank of oscillator voices, the
//! engaged filter stages, and the per-sample step that chains them.
//!
//! The pipeline is an explicit list of stages stepped in a fixed order:
//! pitch curve, oscillators, amplitude envelope, then each engaged filter.
//! Its whole behaviour is mirrored by spec functions over a ghost model, so
//! the rendered stream is a pure function of the sound description and the
//! sample rate.

use vstd::prelude::*;
use crate::env::{sr_ok, spec_duty_at, PITCH_MAX_MHZ};
use crate::filter::{signal_ok, spec_pole_coeff, HighPole, OnePole, PinkFilter, SIGNAL_MAX};
use crate::num::{clamp64, spec_clamp64, spec_tdiv64, lemma_tdiv_bound, tdiv64};
use crate::osc::{Noise, PhaseOsc, Square};
use crate::rng::{spec_stage_seed, stage_seed};
use crate::types::{Filters, Tone, Waveform, MILLI, NYQUIST_MHZ};
use crate::wave::WAVE_ONE;

verus! {

/// Fixed gain restoring audibility after the heavy 10 Hz attenuation of the
/// brown-noise pole, in thousandths.
pub const BROWN_GAIN_MILLI: i64 = 13_700;

/// Cutoff of the brown-noise colouring pole, in millihertz.
pub const BROWN_POLE_MHZ: i64 = 10_000;

/// One voice of the harmonic bank: an oscillator together with the
/// colouring filter its waveform needs.
#[derive(Clone, Copy, Debug, PartialEq, Eq, Structural)]
pub enum Unit {
    Phase(PhaseOsc),
    Sq(Square),
    White(Noise),
    Pink(Noise, PinkFilter),
    Brown(Noise, OnePole, i64),
}

impl Unit {
    /// Component well-formedness for stepping.
    pub open spec fn wf(self) -> bool {
        match self {
            Unit::Phase(o) => o.wf(),
            Unit::Sq(_) => true,
            Unit::White(n) => n.wf(),
            Unit::Pink(n, pf) => n.wf() && pf.wf(),
            Unit::Brown(n, lp, a) => n.wf() && lp.wf() && 0 <= a < WAVE_ONE,
        }
    }

    /// One step of the voice at frequency `f`: the new voice and its output
    /// sample.
    pub open spec fn spec_step(self, f: i64, duty: u64, sr: int) -> (Unit, i64) {
        match self {
            Unit::Phase(o) => {
                let o2 = o.spec_step(f as int, sr);
                (Unit::Phase(o2), PhaseOsc::spec_shape(o2.shape, o2.phase))
            },
            Unit::Sq(o) => {
                let o2 = o.spec_step(f as int, sr);
                (Unit::Sq(o2), Square::spec_out(o2.phase, duty))
            },
            Unit::White(n) => {
                let n2 = n.spec_step(f as int, sr);
                (Unit::White(n2), Noise::spec_out(n2))
            },
            Unit::Pink(n, pf) => {
                let n2 = n.spec_step(f as int, sr);
                let w = Noise::spec_out(n2);
                (Unit::Pink(n2, pf.spec_step(w)), pf.spec_out(w))
            },
            Unit::Brown(n, lp, a) => {
                let n2 = n.spec_step(f as int, sr);
                let w = Noise::spec_out(n2);
                let y = lp.spec_step(w, a);
                (
                    Unit::Brown(n2, OnePole { y }, a),
                    spec_clamp64(
                        -SIGNAL_MAX,
                        SIGNAL_MAX as int,
                        spec_tdiv64(y * BROWN_GAIN_MILLI, MILLI as int),
                    ) as i64,
                )
            },
        }
    }

    /// Advance this voice one sample at frequency `f` millihertz; the
    /// square voice reads the duty threshold, the others ignore it.
    pub fn tick(&mut self, f: i64, duty: u64, sr: u32) -> (r: i64)
        requires
            old(self).wf(),
            0 <= f <= PITCH_MAX_MHZ,
            sr_ok(sr),
        ensures
            *final(self) == old(self).spec_step(f, duty, sr as int).0,
            r == old(self).spec_step(f, duty, sr as int).1,
            final(self).wf(),
            signal_ok(r),
    {
        match self {
            Unit::Phase(o) => o.tick(f, sr),
            Unit::Sq(o) => o.tick(f, duty, sr),
            Unit::White(n) => n.tick(f, sr),
            Unit::Pink(n, pf) => {
                let w = n.tick(f, sr);
                pf.tick(w)
            },
            Unit::Brown(n, lp, a) => {
                let w = n.tick(f, sr);
                let y = lp.tick(w, *a);
                proof {
                    lemma_tdiv_bound(y as int * BROWN_GAIN_MILLI, 2_800_000, MILLI as int);
                    assert(-(2_800_000int * MILLI) <= y * BROWN_GAIN_MILLI <= 2_800_000int
                        * MILLI) by (nonlinear_arith)
                        requires
                            -SIGNAL_MAX <= y <= SIGNAL_MAX as int,
                    ;
                }
                clamp64(-SIGNAL_MAX, SIGNAL_MAX, tdiv64(y * BROWN_GAIN_MILLI, MILLI))
            },
        }
    }

    /// The voice a tone's waveform starts with, in its re-seeded state:
    /// phase accumulators at zero, noise seeded from the stage seed.
    pub open spec fn spec_init(tone: Tone, seed: u64, k: u64, sr: int) -> Unit {
        match tone.waveform {
            Waveform::Square => Unit::Sq(Square { phase: 0 }),
            Waveform::White => Unit::White(
                Noise::spec_new(spec_stage_seed(seed, k), tone.interpolate_noise),
            ),
            Waveform::Pink => Unit::Pink(
                Noise::spec_new(spec_stage_seed(seed, k), tone.interpolate_noise),
                PinkFilter { b0: 0, b1: 0, b2: 0 },
            ),
            Waveform::Brown => Unit::Brown(
                Noise::spec_new(spec_stage_seed(seed, k), tone.interpolate_noise),
                OnePole { y: 0 },
                spec_pole_coeff(BROWN_POLE_MHZ as int, sr),
            ),
            _ => Unit::Phase(PhaseOsc { shape: tone.waveform, phase: 0 }),
        }
    }

    /// Build the voice for stage `k` of a sound seeded with `seed`.
    pub fn init(tone: &Tone, seed: u64, k: u64, sr: u32) -> (r: Unit)
        requires
            sr_ok(sr),
        ensures
            r == Unit::spec_init(*tone, seed, k, sr as int),
            r.wf(),
    {
        match tone.waveform {
            Waveform::Square => Unit::Sq(Square::new()),
            Waveform::White => Unit::White(Noise::new(stage_seed(seed, k),
                tone.interpolate_noise)),
            Waveform::Pink => Unit::Pink(
                Noise::new(stage_seed(seed, k), tone.interpolate_noise),
                PinkFilter::new(),
            ),
            Waveform::Brown => Unit::Brown(
                Noise::new(stage_seed(seed, k), tone.interpolate_noise),
                OnePole::new(),
                crate::filter::pole_coeff(BROWN_POLE_MHZ, sr),
            ),
            _ => Unit::Phase(PhaseOsc::new(tone.waveform)),
        }
    }
}

/// The harmonic weight of stage `k`: `falloff^k` in `WAVE_ONE` scale, one
/// truncating multiply per power.
pub open spec fn spec_weight(falloff: i64, k: nat) -> i64
    decreases k,
{
    if k == 0 {
        WAVE_ONE
    } else {
        ((spec_weight(falloff, (k - 1) as nat) * falloff) / MILLI as int) as i64
    }
}

/// Weights stay within `[0, WAVE_ONE]` for a falloff in `[0, 1]`.
pub proof fn lemma_weight_bounds(falloff: i64, k: nat)
    requires
        0 <= falloff <= MILLI,
    ensures
        0 <= spec_weight(falloff, k) <= WAVE_ONE,
    decreases k,
{
    if k > 0 {
        lemma_weight_bounds(falloff, (k - 1) as nat);
        let prev = spec_weight(falloff, (k - 1) as nat);
        assert(0 <= prev * falloff <= WAVE_ONE * MILLI) by (nonlinear_arith)
            requires
                0 <= prev <= WAVE_ONE,
                0 <= falloff <= MILLI as int,
        ;
        crate::num::lemma_div_le_factor(prev as int * falloff as int, WAVE_ONE as int,
            MILLI as int);
    }
}

/// The sum of the first `n` entries of a weight vector.
pub open spec fn seq_sum(s: Seq<i64>, n: nat) -> int
    decreases n,
{
    if n == 0 {
        0
    } else {
        seq_sum(s, (n - 1) as nat) + s[n - 1]
    }
}

/// A weight vector of entries in `[0, WAVE_ONE]` sums to at most
/// `n * WAVE_ONE`.
pub proof fn lemma_seq_sum_bounds(s: Seq<i64>, n: nat)
    requires
        n <= s.len(),
        forall|j: int| 0 <= j < n ==> 0 <= #[trigger] s[j] <= WAVE_ONE,
    ensures
        0 <= seq_sum(s, n) <= n * WAVE_ONE,
    decreases n,
{
    if n > 0 {
        lemma_seq_sum_bounds(s, (n - 1) as nat);
        assert((n - 1) * WAVE_ONE + WAVE_ONE == n * WAVE_ONE) by (nonlinear_arith);
    }
}

/// Sum stability: the sum over a prefix ignores entries past it.
pub proof fn lemma_seq_sum_push(s: Seq<i64>, v: i64, n: nat)
    requires
        n <= s.len(),
    ensures
        seq_sum(s.push(v), n) == seq_sum(s, n),
    decreases n,
{
    if n > 0 {
        lemma_seq_sum_push(s, v, (n - 1) as nat);
    }
}

/// Whether the flanger stage is engaged: some positive delay at either end
/// of the sweep.
pub open spec fn spec_flanger_on(f: Filters) -> bool {
    f.flanger_offset > 0 || f.flanger_offset + f.flanger_offset_sweep > 0
}

/// Whether the bit-crusher is engaged: fewer than 16 bits, or a sweep.
pub open spec fn spec_crush_on(f: Filters) -> bool {
    f.bit_crush < 16 || f.bit_crush_sweep != 0
}

/// Whether the low-pass stage is engaged: a cutoff below the disabling
/// threshold.
pub open spec fn spec_low_on(f: Filters) -> bool {
    f.low_pass_cutoff < NYQUIST_MHZ
}

/// Whether the high-pass stage is engaged: a cutoff above zero.
pub open spec fn spec_high_on(f: Filters) -> bool {
    f.high_pass_cutoff > 0
}

/// Whether the compression stage is engaged: a power other than one.
pub open spec fn spec_comp_on(f: Filters) -> bool {
    f.compression != MILLI
}

/// Ring length of the flanger delay line: room for the longest delay the
/// settings can reach (one hundred milliseconds) plus the write slot.
pub open spec fn spec_flanger_len(sr: int) -> int {
    crate::num::spec_round_div(100_000 * sr, 1_000_000) + 1
}

/// The flanger delay at sample `i`, in whole samples: the offset swept
/// linearly over the sound, clamped into `[0, 100_000]` microseconds.
pub open spec fn spec_flanger_delay(f: Filters, i: int, total: int, sr: int) -> int {
    let us = spec_clamp64(0, 100_000, f.flanger_offset + spec_tdiv64(f.flanger_offset_sweep * i,
        total));
    crate::num::spec_round_div(us * sr, 1_000_000)
}

/// The effective bit depth at sample `i`: the setting plus its sweep over
/// the sound, rounded and clamped into `[1, 16]`.
pub open spec fn spec_crush_bits(f: Filters, i: int, total: int) -> i64 {
    spec_clamp64(1, 16, crate::num::spec_round_div_s(f.bit_crush * total + f.bit_crush_sweep * i,
        total)) as i64
}

/// The effective low-pass cutoff at sample `i`, clamped into
/// `[0, sr / 2]` hertz (here in millihertz).
pub open spec fn spec_lp_cutoff(f: Filters, i: int, total: int, sr: int) -> i64 {
    spec_clamp64(0, 500 * sr, f.low_pass_cutoff + spec_tdiv64(f.low_pass_sweep * i, total)) as i64
}

/// The effective high-pass cutoff at sample `i`, clamped into
/// `[0, sr / 2]` hertz (here in millihertz).
pub open spec fn spec_hp_cutoff(f: Filters, i: int, total: int, sr: int) -> i64 {
    spec_clamp64(0, 500 * sr, f.high_pass_cutoff + spec_tdiv64(f.high_pass_sweep * i, total))
        as i64
}

/// Ring length of the flanger delay line at rate `sr`.
pub fn flanger_len(sr: u32) -> (r: i64)
    requires
        sr_ok(sr),
    ensures
        r == spec_flanger_len(sr as int),
        1 <= r <= 100_001,
{
    crate::num::round_div64(100_000 * (sr as i64), 1_000_000) + 1
}

/// Flanger delay in samples at sample `i`; always fits the ring.
pub fn flanger_delay(f: &Filters, i: i64, total: i64, sr: u32) -> (r: i64)
    requires
        f.wf(),
        0 <= i < total <= 20_000_000,
        sr_ok(sr),
    ensures
        r == spec_flanger_delay(*f, i as int, total as int, sr as int),
        0 <= r < spec_flanger_len(sr as int),
{
    proof {
        assert(-(50_000int * 20_000_000) <= f.flanger_offset_sweep * i <= 50_000int * 20_000_000)
            by (nonlinear_arith)
            requires
                -50_000 <= f.flanger_offset_sweep <= 50_000,
                0 <= i <= 20_000_000,
        ;
    }
    let swept = tdiv64(f.flanger_offset_sweep * i, total);
    let us = clamp64(0, 100_000, f.flanger_offset + swept);
    proof {
        assert(0 <= us * sr <= 100_000 * (sr as int)) by (nonlinear_arith)
            requires
                0 <= us <= 100_000,
                0 < sr,
        ;
        vstd::arithmetic::div_mod::lemma_div_is_ordered(us as int * sr as int + 500_000,
            100_000 * sr as int + 500_000, 1_000_000);
    }
    crate::num::round_div64(us * (sr as i64), 1_000_000)
}

/// Effective bit depth at sample `i`, in `[1, 16]`.
pub fn crush_bits(f: &Filters, i: i64, total: i64) -> (r: i64)
    requires
        f.wf(),
        0 <= i < total <= 20_000_000,
    ensures
        r == spec_crush_bits(*f, i as int, total as int),
        1 <= r <= 16,
{
    proof {
        assert(-(16int * 20_000_000) <= f.bit_crush * total <= 16int * 20_000_000)
            by (nonlinear_arith)
            requires
                1 <= f.bit_crush <= 16,
                0 < total <= 20_000_000,
        ;
        assert(-(16int * 20_000_000) <= f.bit_crush_sweep * i <= 16int * 20_000_000)
            by (nonlinear_arith)
            requires
                -16 <= f.bit_crush_sweep <= 16,
                0 <= i <= 20_000_000,
        ;
    }
    let raw = crate::num::round_div_s(f.bit_crush * total + f.bit_crush_sweep * i, total);
    clamp64(1, 16, raw)
}

/// Effective low-pass cutoff at sample `i`: always within
/// `[0, sr / 2]` hertz, whatever the settings.
pub fn lp_cutoff(f: &Filters, i: i64, total: i64, sr: u32) -> (r: i64)
    requires
        f.wf(),
        0 <= i < total <= 20_000_000,
        sr_ok(sr),
    ensures
        r == spec_lp_cutoff(*f, i as int, total as int, sr as int),
        0 <= r <= 500 * sr,
{
    proof {
        assert(-(NYQUIST_MHZ as int * 20_000_000) <= f.low_pass_sweep * i <= NYQUIST_MHZ as int
            * 20_000_000) by (nonlinear_arith)
            requires
                -(NYQUIST_MHZ as int) <= f.low_pass_sweep <= NYQUIST_MHZ as int,
                0 <= i <= 20_000_000,
        ;
    }
    let swept = tdiv64(f.low_pass_sweep * i, total);
    clamp64(0, 500 * (sr as i64), f.low_pass_cutoff + swept)
}

/// Effective high-pass cutoff at sample `i`: always within
/// `[0, sr / 2]` hertz, whatever the settings.
pub fn hp_cutoff(f: &Filters, i: i64, total: i64, sr: u32) -> (r: i64)
    requires
        f.wf(),
        0 <= i < total <= 20_000_000,
        sr_ok(sr),
    ensures
        r == spec_hp_cutoff(*f, i as int, total as int, sr as int),
        0 <= r <= 500 * sr,
{
    proof {
        assert(-(NYQUIST_MHZ as int * 20_000_000) <= f.high_pass_sweep * i <= NYQUIST_MHZ as int
            * 20_000_000) by (nonlinear_arith)
            requires
                -(NYQUIST_MHZ as int) <= f.high_pass_sweep <= NYQUIST_MHZ as int,
                0 <= i <= 20_000_000,
        ;
    }
    let swept = tdiv64(f.high_pass_sweep * i, total);
    clamp64(0, 500 * (sr as i64), f.high_pass_cutoff + swept)
}

/// The frequency driving harmonic stage `k`: the pitch scaled by `k + 1`,
/// clamped to the provable pitch range.
pub open spec fn spec_harmonic_freq(f: i64, k: int) -> i64 {
    spec_clamp64(0, PITCH_MAX_MHZ as int, f * (k + 1)) as i64
}

/// Frequency of harmonic stage `k`.
pub fn harmonic_freq(f: i64, k: usize) -> (r: i64)
    requires
        0 <= f <= PITCH_MAX_MHZ,
        k < 6,
    ensures
        r == spec_harmonic_freq(f, k as int),
        0 <= r <= PITCH_MAX_MHZ,
{
    proof {
        assert(0 <= f * (k + 1) <= PITCH_MAX_MHZ * 6) by (nonlinear_arith)
            requires
                0 <= f <= PITCH_MAX_MHZ,
                1 <= k + 1 <= 6,
        ;
    }
    clamp64(0, PITCH_MAX_MHZ, f * ((k as i64) + 1))
}

/// The harmonic bank after its first `k` voices have stepped: the updated
/// voices and the weighted sum of their outputs.
pub open spec fn spec_bank(units: Seq<Unit>, weights: Seq<i64>, k: nat, f: i64, duty: u64,
    sr: int) -> (Seq<Unit>, int)
    decreases k,
{
    if k == 0 {
        (units, 0)
    } else {
        let prev = spec_bank(units, weights, (k - 1) as nat, f, duty, sr);
        let stepped = units[k - 1].spec_step(spec_harmonic_freq(f, k - 1), duty, sr);
        (prev.0.update(k - 1, stepped.0), prev.1 + stepped.1 * weights[k - 1])
    }
}

/// The bank fold touches only the voices before `k`.
pub proof fn lemma_bank_frame(units: Seq<Unit>, weights: Seq<i64>, k: nat, f: i64, duty: u64,
    sr: int)
    requires
        k <= units.len(),
    ensures
        spec_bank(units, weights, k, f, duty, sr).0.len() == units.len(),
        forall|j: int| k <= j < units.len() ==> spec_bank(units, weights, k, f, duty, sr).0[j]
            == units[j],
    decreases k,
{
    if k > 0 {
        lemma_bank_frame(units, weights, (k - 1) as nat, f, duty, sr);
    }
}

/// The ghost mirror of the flanger delay line.
#[verifier::ext_equal]
pub ghost struct FlangerModel {
    pub buf: Seq<i64>,
    pub pos: int,
}

/// One step of the flanger model: read the delayed slot, write the input,
/// advance the cursor.
pub open spec fn spec_flanger_step(m: FlangerModel, x: i64, d: int) -> (FlangerModel, i64) {
    let len = m.buf.len() as int;
    let out = spec_clamp64(-SIGNAL_MAX, SIGNAL_MAX as int, x + spec_tdiv64(
        m.buf[(m.pos + len - d) % len] as int,
        2,
    )) as i64;
    (
        FlangerModel {
            buf: m.buf.update(m.pos, x),
            pos: if m.pos + 1 == len {
                0int
            } else {
                m.pos + 1
            },
        },
        out,
    )
}

/// The ghost mirror of the whole pipeline.
///
/// Disengaged stages keep their (never consulted) state; the `_on` flags,
/// fixed at build time from the filter settings, say which stages run.
#[verifier::ext_equal]
pub ghost struct NetModel {
    pub pitch: crate::types::Pitch,
    pub tone: Tone,
    pub amplitude: crate::types::Amplitude,
    pub filters: Filters,
    pub units: Seq<Unit>,
    pub weights: Seq<i64>,
    pub wsum: i64,
    pub flanger: FlangerModel,
    pub flanger_on: bool,
    pub low: OnePole,
    pub low_on: bool,
    pub high: HighPole,
    pub high_on: bool,
    pub sr: int,
    pub total: int,
    pub erf: int,
    pub pos: int,
}

impl NetModel {
    /// Everything the per-sample step relies on.
    pub open spec fn wf(self) -> bool {
        &&& self.pitch.wf()
        &&& self.tone.wf()
        &&& self.amplitude.wf()
        &&& self.filters.wf()
        &&& 1 <= self.units.len() <= 6
        &&& forall|j: int| 0 <= j < self.units.len() ==> (#[trigger] self.units[j]).wf()
        &&& self.weights.len() == self.units.len()
        &&& forall|j: int| 0 <= j < self.weights.len() ==> 0 <= #[trigger] self.weights[j]
            <= WAVE_ONE
        &&& 1 <= self.wsum
        &&& self.wsum == seq_sum(self.weights, self.weights.len() as nat)
        &&& self.flanger.buf.len() == spec_flanger_len(self.sr)
        &&& 0 <= self.flanger.pos < self.flanger.buf.len()
        &&& forall|j: int| 0 <= j < self.flanger.buf.len() ==> signal_ok(
            #[trigger] self.flanger.buf[j],
        )
        &&& self.low.wf()
        &&& self.high.wf()
        &&& 1 <= self.sr <= crate::env::SR_MAX
        &&& 0 < self.total <= 20_000_000
        &&& 0 <= self.erf <= 1_000_000
        &&& 0 <= self.pos
    }

    /// One sample of the pipeline: the next model and the emitted sample.
    pub open spec fn spec_step(self) -> (NetModel, i16) {
        let f = crate::env::spec_pitch_at(self.pitch, self.pos, self.sr, self.erf, self.total);
        let tr = crate::env::spec_repeat_pos(self.pitch, self.pos, self.sr, self.erf, self.total);
        let duty = spec_duty_at(self.tone.square_duty as int, self.tone.square_duty_sweep as int,
            tr as int);
        let bank = spec_bank(self.units, self.weights, self.units.len() as nat, f, duty, self.sr);
        let mix = spec_tdiv64(bank.1, self.wsum as int);
        let ag = crate::env::spec_aspd(self.amplitude, self.pos, self.sr);
        let gain = if self.amplitude.tremolo_depth > 0 {
            (ag * crate::env::spec_tremolo(self.amplitude.tremolo_depth as int,
                self.amplitude.tremolo_frequency as int, self.pos, self.sr)) / WAVE_ONE as int
        } else {
            ag as int
        };
        let s1 = spec_tdiv64(mix * gain, WAVE_ONE as int) as i64;
        let fl = if self.flanger_on {
            spec_flanger_step(self.flanger, s1, spec_flanger_delay(self.filters, self.pos,
                self.total, self.sr))
        } else {
            (self.flanger, s1)
        };
        let s2 = fl.1;
        let s3 = if spec_crush_on(self.filters) {
            crate::filter::spec_bit_crush(s2, spec_crush_bits(self.filters, self.pos, self.total))
        } else {
            s2
        };
        let lo = if self.low_on {
            let a = spec_pole_coeff(spec_lp_cutoff(self.filters, self.pos, self.total,
                self.sr) as int, self.sr);
            let y = self.low.spec_step(s3, a);
            (OnePole { y }, y)
        } else {
            (self.low, s3)
        };
        let s4 = lo.1;
        let hi = if self.high_on {
            let a = spec_pole_coeff(spec_hp_cutoff(self.filters, self.pos, self.total,
                self.sr) as int, self.sr);
            (
                HighPole { lp: OnePole { y: self.high.spec_step(s4, a) } },
                self.high.spec_out(s4, a),
            )
        } else {
            (self.high, s4)
        };
        let s5 = hi.1;
        let s6 = if spec_comp_on(self.filters) {
            crate::filter::spec_compress(s5, self.filters.compression)
        } else {
            s5
        };
        let out = spec_clamp64(-32_767, 32_767, spec_tdiv64(s6 as int, 4)) as i16;
        (
            NetModel {
                units: bank.0,
                flanger: fl.0,
                low: lo.0,
                high: hi.0,
                pos: self.pos + 1,
                ..self
            },
            out,
        )
    }
}

/// The assembled pipeline for one sound: the parameter groups, the harmonic
/// bank, and the filter stages with their engagement flags.
pub struct Net {
    pub pitch: crate::types::Pitch,
    pub tone: Tone,
    pub amplitude: crate::types::Amplitude,
    pub filters: Filters,
    pub units: Vec<Unit>,
    pub weights: Vec<i64>,
    pub wsum: i64,
    pub flanger: crate::filter::Flanger,
    pub flanger_on: bool,
    pub low: OnePole,
    pub low_on: bool,
    pub high: HighPole,
    pub high_on: bool,
    pub sr: u32,
    pub total: i64,
    pub erf: i64,
    pub pos: i64,
}

impl Net {
    /// The ghost model this pipeline denotes.
    pub open spec fn model(self) -> NetModel {
        NetModel {
            pitch: self.pitch,
            tone: self.tone,
            amplitude: self.amplitude,
            filters: self.filters,
            units: self.units@,
            weights: self.weights@,
            wsum: self.wsum,
            flanger: FlangerModel { buf: self.flanger.buf@, pos: self.flanger.pos as int },
            flanger_on: self.flanger_on,
            low: self.low,
            low_on: self.low_on,
            high: self.high,
            high_on: self.high_on,
            sr: self.sr as int,
            total: self.total as int,
            erf: self.erf as int,
            pos: self.pos as int,
        }
    }

    pub open spec fn wf(self) -> bool {
        &&& self.model().wf()
        &&& self.flanger.wf()
        &&& self.pos <= self.total
    }

    /// Advance the pipeline one sample and emit it.
    #[verifier::loop_isolation(false)]
    pub fn tick(&mut self) -> (r: i16)
        requires
            old(self).wf(),
            old(self).pos < old(self).total,
        ensures
            final(self).model() == old(self).model().spec_step().0,
            r == old(self).model().spec_step().1,
            final(self).wf(),
            final(self).pos == old(self).pos + 1,
    {
        let ghost m0 = self.model();
        let pt = self.pitch.at(self.pos, self.sr, self.erf, self.total);
        let f = pt.0;
        let tr = pt.1;
        let duty = crate::env::duty_at(self.tone.square_duty, self.tone.square_duty_sweep, tr);
        let ghost u0 = self.units@;
        let ghost w0 = self.weights@;
        let n = self.units.len();
        let mut acc: i64 = 0;
        let mut k: usize = 0;
        while k < n
            invariant
                k <= n,
                self.units@.len() == n,
                forall|j: int| 0 <= j < n ==> (#[trigger] self.units@[j]).wf(),
                self.units@ == spec_bank(u0, w0, k as nat, f, duty, self.sr as int).0,
                acc == spec_bank(u0, w0, k as nat, f, duty, self.sr as int).1,
                -(2 * WAVE_ONE) * seq_sum(w0, k as nat) <= acc <= 2 * WAVE_ONE * seq_sum(
                    w0,
                    k as nat,
                ),
                self.pitch == old(self).pitch,
                self.tone == old(self).tone,
                self.amplitude == old(self).amplitude,
                self.filters == old(self).filters,
                self.weights == old(self).weights,
                self.wsum == old(self).wsum,
                self.flanger == old(self).flanger,
                self.flanger_on == old(self).flanger_on,
                self.low == old(self).low,
                self.low_on == old(self).low_on,
                self.high == old(self).high,
                self.high_on == old(self).high_on,
                self.sr == old(self).sr,
                self.total == old(self).total,
                self.erf == old(self).erf,
                self.pos == old(self).pos,
            decreases n - k,
        {
            proof {
                lemma_bank_frame(u0, w0, k as nat, f, duty, self.sr as int);
            }
            let fk = harmonic_freq(f, k);
            let mut u = self.units[k];
            let out = u.tick(fk, duty, self.sr);
            self.units[k] = u;
            let w = self.weights[k];
            proof {
                lemma_seq_sum_bounds(w0, k as nat);
                assert(seq_sum(w0, (k + 1) as nat) == seq_sum(w0, k as nat) + w0[k as int]);
                assert(-(2 * WAVE_ONE * w) <= out * w <= 2 * WAVE_ONE * w) by (nonlinear_arith)
                    requires
                        -(2 * WAVE_ONE) <= out <= 2 * WAVE_ONE as int,
                        0 <= w,
                ;
            }
            acc = acc + out * w;
            k = k + 1;
        }
        proof {
            lemma_seq_sum_bounds(w0, w0.len() as nat);
            lemma_tdiv_bound(acc as int, 2 * WAVE_ONE as int, self.wsum as int);
        }
        let mix = tdiv64(acc, self.wsum);
        let ag = crate::env::aspd(&self.amplitude, self.pos, self.sr);
        let gain = if self.amplitude.tremolo_depth > 0 {
            let tg = crate::env::tremolo(self.amplitude.tremolo_depth,
                self.amplitude.tremolo_frequency, self.pos, self.sr);
            proof {
                assert(0 <= ag * tg <= WAVE_ONE * WAVE_ONE) by (nonlinear_arith)
                    requires
                        0 <= ag <= WAVE_ONE,
                        0 <= tg <= WAVE_ONE as int,
                ;
                crate::num::lemma_div_le_factor(ag as int * tg as int, WAVE_ONE as int,
                    WAVE_ONE as int);
            }
            ag * tg / WAVE_ONE
        } else {
            ag
        };
        proof {
            assert(-(2 * WAVE_ONE * WAVE_ONE) <= mix * gain <= 2 * WAVE_ONE * WAVE_ONE)
                by (nonlinear_arith)
                requires
                    -(2 * WAVE_ONE) <= mix <= 2 * WAVE_ONE as int,
                    0 <= gain <= WAVE_ONE as int,
            ;
            lemma_tdiv_bound(mix as int * gain as int, 2 * WAVE_ONE as int, WAVE_ONE as int);
        }
        let s1 = tdiv64(mix * gain, WAVE_ONE);
        let s2 = if self.flanger_on {
            let d = flanger_delay(&self.filters, self.pos, self.total, self.sr);
            self.flanger.tick(s1, d as usize)
        } else {
            s1
        };
        let s3 = if self.filters.bit_crush < 16 || self.filters.bit_crush_sweep != 0 {
            let bits = crush_bits(&self.filters, self.pos, self.total);
            crate::filter::bit_crush(s2, bits)
        } else {
            s2
        };
        let s4 = if self.low_on {
            let fc = lp_cutoff(&self.filters, self.pos, self.total, self.sr);
            let a = crate::filter::pole_coeff(fc, self.sr);
            self.low.tick(s3, a)
        } else {
            s3
        };
        let s5 = if self.high_on {
            let fc = hp_cutoff(&self.filters, self.pos, self.total, self.sr);
            let a = crate::filter::pole_coeff(fc, self.sr);
            self.high.tick(s4, a)
        } else {
            s4
        };
        let s6 = if self.filters.compression != MILLI {
            crate::filter::compress(s5, self.filters.compression)
        } else {
            s5
        };
        let out = clamp64(-32_767, 32_767, tdiv64(s6, 4));
        self.pos = self.pos + 1;
        proof {
            assert(final(self).model() =~= m0.spec_step().0);
        }
        out as i16
    }
}

/// The effective repeat rate in millihertz: the repeat frequency, but at
/// least one cycle over the whole sound.
pub open spec fn spec_erf(a: crate::types::Asyn) -> int {
    let len = a.amplitude.spec_len();
    let inv = if len > 0 {
        1_000_000int / len
    } else {
        0int
    };
    if a.pitch.repeat_frequency > inv {
        a.pitch.repeat_frequency as int
    } else {
        inv
    }
}

/// The freshly assembled pipeline for sound `a` at rate `sr`: every voice
/// in its re-seeded state, filter stages silent, position zero. The filter
/// settings default when the sound carries none, and each stage's
/// engagement flag comes from those settings.
pub open spec fn spec_build(a: crate::types::Asyn, sr: int) -> NetModel {
    let eff = match a.filters {
        Some(f) => f,
        None => Filters::spec_default(),
    };
    let n = (a.tone.harmonics + 1) as nat;
    let weights = Seq::new(n, |j: int| spec_weight(a.tone.harmonics_falloff, j as nat));
    NetModel {
        pitch: a.pitch,
        tone: a.tone,
        amplitude: a.amplitude,
        filters: eff,
        units: Seq::new(n, |j: int| Unit::spec_init(a.tone, a.seed, j as u64, sr)),
        weights: weights,
        wsum: seq_sum(weights, n) as i64,
        flanger: FlangerModel { buf: Seq::new(spec_flanger_len(sr) as nat, |j: int| 0i64), pos: 0 },
        flanger_on: spec_flanger_on(eff),
        low: OnePole { y: 0 },
        low_on: spec_low_on(eff),
        high: HighPole { lp: OnePole { y: 0 } },
        high_on: spec_high_on(eff),
        sr: sr,
        total: crate::env::spec_total_samples(a.amplitude, sr),
        erf: spec_erf(a),
        pos: 0,
    }
}

impl crate::types::Asyn {
    /// Assemble the pipeline this sound describes, ready to render at rate
    /// `sr`.
    pub fn to_net(&self, sr: u32) -> (r: Net)
        requires
            self.wf(),
            sr_ok(sr),
        ensures
            r.model() == spec_build(*self, sr as int),
            crate::env::spec_total_samples(self.amplitude, sr as int) > 0 ==> r.wf(),
            r.pos == 0,
            r.total == crate::env::spec_total_samples(self.amplitude, sr as int),
    {
        let eff = match &self.filters {
            Some(f) => *f,
            None => Filters::default(),
        };
        let nh = self.tone.harmonics;
        let n: usize = (nh + 1) as usize;
        let mut units: Vec<Unit> = Vec::new();
        let mut k: usize = 0;
        while k < n
            invariant
                k <= n <= 6,
                units@.len() == k,
                sr_ok(sr),
                forall|j: int| 0 <= j < k ==> units@[j] == Unit::spec_init(self.tone, self.seed,
                    j as u64, sr as int),
                forall|j: int| 0 <= j < k ==> (#[trigger] units@[j]).wf(),
            decreases n - k,
        {
            units.push(Unit::init(&self.tone, self.seed, k as u64, sr));
            k = k + 1;
        }
        proof {
            assert(units@ =~= Seq::new(n as nat, |j: int| Unit::spec_init(self.tone, self.seed,
                j as u64, sr as int)));
        }
        let falloff = self.tone.harmonics_falloff;
        let ghost wspec = Seq::new(n as nat, |j: int| spec_weight(falloff, j as nat));
        let mut weights: Vec<i64> = Vec::new();
        let mut wsum: i64 = 0;
        let mut wcur: i64 = WAVE_ONE;
        let mut k2: usize = 0;
        while k2 < n
            invariant
                k2 <= n <= 6,
                0 <= falloff <= MILLI,
                weights@.len() == k2,
                forall|j: int| 0 <= j < k2 ==> weights@[j] == spec_weight(falloff, j as nat),
                forall|j: int| 0 <= j < k2 ==> 0 <= #[trigger] weights@[j] <= WAVE_ONE,
                wcur == spec_weight(falloff, k2 as nat),
                0 <= wcur <= WAVE_ONE,
                wsum == seq_sum(weights@, k2 as nat),
                k2 >= 1 ==> wsum >= WAVE_ONE,
                0 <= wsum <= k2 * WAVE_ONE,
            decreases n - k2,
        {
            let ghost before = weights@;
            weights.push(wcur);
            proof {
                lemma_seq_sum_push(before, wcur, k2 as nat);
                assert(seq_sum(weights@, (k2 + 1) as nat) == seq_sum(before, k2 as nat) + wcur);
            }
            wsum = wsum + wcur;
            proof {
                lemma_weight_bounds(falloff, (k2 + 1) as nat);
                assert(0 <= wcur * falloff <= WAVE_ONE * MILLI) by (nonlinear_arith)
                    requires
                        0 <= wcur <= WAVE_ONE,
                        0 <= falloff <= MILLI as int,
                ;
                crate::num::lemma_div_le_factor(wcur as int * falloff as int, WAVE_ONE as int,
                    MILLI as int);
            }
            wcur = wcur * falloff / MILLI;
            k2 = k2 + 1;
        }
        proof {
            assert(weights@ =~= wspec);
        }
        let total = crate::env::total_samples(&self.amplitude, sr);
        let len = self.amplitude.len();
        let inv: i64 = if len > 0 {
            1_000_000 / len
        } else {
            0
        };
        let erf = if self.pitch.repeat_frequency > inv {
            self.pitch.repeat_frequency
        } else {
            inv
        };
        let fl_len = flanger_len(sr);
        let flanger = crate::filter::Flanger::new(fl_len as usize);
        proof {
            assert(flanger.buf@ =~= Seq::new(spec_flanger_len(sr as int) as nat, |j: int| 0i64));
        }
        let r = Net {
            pitch: self.pitch,
            tone: self.tone,
            amplitude: self.amplitude,
            filters: eff,
            units,
            weights,
            wsum,
            flanger,
            flanger_on: eff.flanger_offset > 0 || eff.flanger_offset + eff.flanger_offset_sweep
                > 0,
            low: OnePole::new(),
            low_on: eff.low_pass_cutoff < NYQUIST_MHZ,
            high: HighPole::new(),
            high_on: eff.high_pass_cutoff > 0,
            sr,
            total,
            erf,
            pos: 0,
        };
        proof {
            assert(r.model() =~= spec_build(*self, sr as int));
        }
        r
    }
}

} // verus!
