//! Bounded mutation of a sound description, and random waveform picking —
//! the tools a preset designer iterates with.
//!
//! Each scalar field has a mutation table entry: its default, bounds, and
//! quantization step. A mutation nudges the field by up to five percent of
//! its range, snaps it to the step, and clamps it into bounds; a field
//! sitting at its default is only touched thirty percent of the time, and
//! the waveform itself is redrawn with ten percent probability. The
//! contracts state exactly this relation between old and new value — for
//! some drawn offset within the five-percent window — so whatever the
//! generator returns, every mutated description stays inside the table's
//! bounds and within one quantized nudge of where it was.

use vstd::prelude::*;
use crate::frand::{chance_milli, rand_i64_in};
use crate::num::{clamp64, round_to, spec_clamp64, spec_round_to};
use crate::types::{Amplitude, Asyn, Filters, Jump, Pitch, Tone, Waveform,
    FREQUENCY_DEFAULT, FREQUENCY_JUMP1_ONSET_DEFAULT, FREQUENCY_JUMP2_ONSET_DEFAULT, MILLI,
    NYQUIST_MHZ, VIBRATO_FREQUENCY_DEFAULT};

verus! {

/// `post` is `pre` nudged by some offset of at most five percent of the
/// span, snapped to the step, and clamped into bounds.
pub open spec fn spec_nudge(pre: int, min: int, max: int, step: int, post: int) -> bool {
    exists|u: int|
        -((max - min) / 20) <= u <= (max - min) / 20 && post == spec_clamp64(
            min,
            max,
            #[trigger] spec_round_to(pre + u, step),
        )
}

/// The scalar mutation relation: either a nudge fired, or the field sat at
/// its default and was left there (clamped into bounds).
pub open spec fn spec_mutated_scalar(pre: int, def: int, min: int, max: int, step: int,
    post: int) -> bool {
    spec_nudge(pre, min, max, step, post) || (pre == def && post == spec_clamp64(min, max, pre))
}

/// The whole-number mutation relation: `post` is `pre` moved by at most one
/// and clamped into bounds.
pub open spec fn spec_stepped(pre: int, min: int, max: int, post: int) -> bool {
    exists|d: int| -1 <= d <= 1 && post == #[trigger] spec_clamp64(min, max, pre + d)
}

/// One mutation of a scalar field: applied always when the field is off
/// its default and with thirty percent probability otherwise; the result
/// never leaves `[min, max]` and relates to the input by
/// `spec_mutated_scalar`.
pub fn mutate_scalar(rng: &mut funutd::Rnd, v: i64, def: i64, min: i64, max: i64, step: i64) -> (r:
    i64)
    requires
        min <= def <= max,
        0 < step <= 1_000_000_000,
        -1_000_000_000 <= min <= max <= 1_000_000_000,
        -2_000_000_000 <= v <= 2_000_000_000,
    ensures
        min <= r <= max,
        spec_mutated_scalar(v as int, def as int, min as int, max as int, step as int, r as int),
{
    let hit = if v != def {
        true
    } else {
        chance_milli(rng, 300)
    };
    if hit {
        let range = (max - min) / 20;
        let d = rand_i64_in(rng, -range, range);
        let snapped = round_to(v + d, step);
        let r = clamp64(min, max, snapped);
        proof {
            assert(r == spec_clamp64(min as int, max as int, spec_round_to(v as int + d as int,
                step as int)));
            assert(spec_nudge(v as int, min as int, max as int, step as int, r as int));
        }
        r
    } else {
        clamp64(min, max, v)
    }
}

/// One mutation of a whole-number field: nudged by one in either direction
/// and clamped into `[min, max]`; an in-range field moves by at most one.
pub fn mutate_int(rng: &mut funutd::Rnd, v: i64, min: i64, max: i64) -> (r: i64)
    requires
        min <= max,
        -1_000_000_000 <= min <= max <= 1_000_000_000,
        -2_000_000_000 <= v <= 2_000_000_000,
    ensures
        min <= r <= max,
        spec_stepped(v as int, min as int, max as int, r as int),
        min <= v <= max ==> v - 1 <= r <= v + 1,
{
    let d = rand_i64_in(rng, -1, 1);
    let r = clamp64(min, max, v + d);
    proof {
        assert(r == spec_clamp64(min as int, max as int, v as int + d as int));
        assert(spec_stepped(v as int, min as int, max as int, r as int));
    }
    r
}

impl Pitch {
    /// The pitch fields' mutation-table bounds.
    pub open spec fn in_mutation_bounds(self) -> bool {
        &&& 10_000 <= self.frequency <= 10_000_000
        &&& -10_000_000 <= self.frequency_sweep <= 10_000_000
        &&& -10_000_000 <= self.frequency_delta_sweep <= 10_000_000
        &&& 0 <= self.vibrato_depth <= 1_000_000
        &&& 0 <= self.vibrato_frequency <= 1_000_000
        &&& 0 <= self.repeat_frequency <= 100_000
        &&& 0 <= self.frequency_jump1.onset <= MILLI
        &&& 0 <= self.frequency_jump1.amount <= MILLI
        &&& 0 <= self.frequency_jump2.onset <= MILLI
        &&& 0 <= self.frequency_jump2.amount <= MILLI
    }

    /// Each pitch field relates to its old value by the mutation table:
    /// default, bounds and step per field.
    pub open spec fn spec_mutated(pre: Pitch, post: Pitch) -> bool {
        &&& spec_mutated_scalar(pre.frequency as int, FREQUENCY_DEFAULT as int, 10_000,
            10_000_000, 100_000, post.frequency as int)
        &&& spec_mutated_scalar(pre.frequency_sweep as int, 0, -10_000_000, 10_000_000, 100_000,
            post.frequency_sweep as int)
        &&& spec_mutated_scalar(pre.frequency_delta_sweep as int, 0, -10_000_000, 10_000_000,
            100_000, post.frequency_delta_sweep as int)
        &&& spec_mutated_scalar(pre.vibrato_depth as int, 0, 0, 1_000_000, 10_000,
            post.vibrato_depth as int)
        &&& spec_mutated_scalar(pre.vibrato_frequency as int, VIBRATO_FREQUENCY_DEFAULT as int, 0,
            1_000_000, 1_000, post.vibrato_frequency as int)
        &&& spec_mutated_scalar(pre.repeat_frequency as int, 0, 0, 100_000, 100,
            post.repeat_frequency as int)
        &&& spec_mutated_scalar(pre.frequency_jump1.onset as int,
            FREQUENCY_JUMP1_ONSET_DEFAULT as int, 0, MILLI as int, 50,
            post.frequency_jump1.onset as int)
        &&& spec_mutated_scalar(pre.frequency_jump1.amount as int, 0, 0, MILLI as int, 50,
            post.frequency_jump1.amount as int)
        &&& spec_mutated_scalar(pre.frequency_jump2.onset as int,
            FREQUENCY_JUMP2_ONSET_DEFAULT as int, 0, MILLI as int, 50,
            post.frequency_jump2.onset as int)
        &&& spec_mutated_scalar(pre.frequency_jump2.amount as int, 0, 0, MILLI as int, 50,
            post.frequency_jump2.amount as int)
    }

    /// Mutate every pitch field against its table entry.
    pub fn mutate(self, rng: &mut funutd::Rnd) -> (r: Pitch)
        requires
            self.wf(),
        ensures
            r.in_mutation_bounds(),
            r.wf(),
            Pitch::spec_mutated(self, r),
    {
        Pitch {
            frequency: mutate_scalar(rng, self.frequency, FREQUENCY_DEFAULT, 10_000, 10_000_000,
                100_000),
            frequency_sweep: mutate_scalar(rng, self.frequency_sweep, 0, -10_000_000, 10_000_000,
                100_000),
            frequency_delta_sweep: mutate_scalar(rng, self.frequency_delta_sweep, 0, -10_000_000,
                10_000_000, 100_000),
            vibrato_depth: mutate_scalar(rng, self.vibrato_depth, 0, 0, 1_000_000, 10_000),
            vibrato_frequency: mutate_scalar(rng, self.vibrato_frequency,
                VIBRATO_FREQUENCY_DEFAULT, 0, 1_000_000, 1_000),
            repeat_frequency: mutate_scalar(rng, self.repeat_frequency, 0, 0, 100_000, 100),
            frequency_jump1: Jump {
                onset: mutate_scalar(rng, self.frequency_jump1.onset,
                    FREQUENCY_JUMP1_ONSET_DEFAULT, 0, MILLI, 50),
                amount: mutate_scalar(rng, self.frequency_jump1.amount, 0, 0, MILLI, 50),
            },
            frequency_jump2: Jump {
                onset: mutate_scalar(rng, self.frequency_jump2.onset,
                    FREQUENCY_JUMP2_ONSET_DEFAULT, 0, MILLI, 50),
                amount: mutate_scalar(rng, self.frequency_jump2.amount, 0, 0, MILLI, 50),
            },
        }
    }
}

impl Tone {
    /// The tone fields' mutation-table bounds.
    pub open spec fn in_mutation_bounds(self) -> bool {
        &&& 0 <= self.square_duty <= MILLI
        &&& -MILLI <= self.square_duty_sweep <= MILLI
        &&& 0 <= self.harmonics <= 5
        &&& 0 <= self.harmonics_falloff <= MILLI
    }

    /// Each tone field relates to its old value by the mutation table; the
    /// harmonics count steps by at most one.
    pub open spec fn spec_mutated(pre: Tone, post: Tone) -> bool {
        &&& spec_mutated_scalar(pre.square_duty as int, 500, 0, MILLI as int, 50,
            post.square_duty as int)
        &&& spec_mutated_scalar(pre.square_duty_sweep as int, 0, -(MILLI as int), MILLI as int,
            50, post.square_duty_sweep as int)
        &&& spec_stepped(pre.harmonics as int, 0, 5, post.harmonics as int)
        &&& spec_mutated_scalar(pre.harmonics_falloff as int, 500, 0, MILLI as int, 10,
            post.harmonics_falloff as int)
    }

    /// Mutate the tone: the waveform is redrawn with ten percent
    /// probability, the interpolation flag flips with ten percent
    /// probability, duty settings follow the table, and the harmonics count
    /// moves by at most one.
    pub fn mutate(self, rng: &mut funutd::Rnd) -> (r: Tone)
        requires
            self.wf(),
        ensures
            r.in_mutation_bounds(),
            r.wf(),
            Tone::spec_mutated(self, r),
            self.harmonics - 1 <= r.harmonics <= self.harmonics + 1,
    {
        let waveform = if chance_milli(rng, 100) {
            Waveform::from_index(rand_i64_in(rng, 0, 9))
        } else {
            self.waveform
        };
        let interpolate_noise = if chance_milli(rng, 100) {
            !self.interpolate_noise
        } else {
            self.interpolate_noise
        };
        Tone {
            waveform,
            interpolate_noise,
            square_duty: mutate_scalar(rng, self.square_duty, 500, 0, MILLI, 50),
            square_duty_sweep: mutate_scalar(rng, self.square_duty_sweep, 0, -MILLI, MILLI, 50),
            harmonics: mutate_int(rng, self.harmonics, 0, 5),
            harmonics_falloff: mutate_scalar(rng, self.harmonics_falloff, 500, 0, MILLI, 10),
        }
    }
}

impl Amplitude {
    /// The amplitude fields' mutation-table bounds.
    pub open spec fn in_mutation_bounds(self) -> bool {
        &&& 0 <= self.attack <= 5000
        &&& 0 <= self.sustain <= 5000
        &&& 0 <= self.punch <= MILLI
        &&& 0 <= self.decay <= 5000
        &&& 0 <= self.tremolo_depth <= MILLI
        &&& 0 <= self.tremolo_frequency <= 1_000_000
    }

    /// Each envelope field relates to its old value by the mutation table.
    pub open spec fn spec_mutated(pre: Amplitude, post: Amplitude) -> bool {
        &&& spec_mutated_scalar(pre.attack as int, 0, 0, 5000, 10, post.attack as int)
        &&& spec_mutated_scalar(pre.sustain as int, 0, 0, 5000, 10, post.sustain as int)
        &&& spec_mutated_scalar(pre.punch as int, 0, 0, MILLI as int, 100, post.punch as int)
        &&& spec_mutated_scalar(pre.decay as int, 0, 0, 5000, 10, post.decay as int)
        &&& spec_mutated_scalar(pre.tremolo_depth as int, 0, 0, MILLI as int, 10,
            post.tremolo_depth as int)
        &&& spec_mutated_scalar(pre.tremolo_frequency as int, 10_000, 0, 1_000_000, 1_000,
            post.tremolo_frequency as int)
    }

    /// Mutate every envelope field against its table entry.
    pub fn mutate(self, rng: &mut funutd::Rnd) -> (r: Amplitude)
        requires
            self.wf(),
        ensures
            r.in_mutation_bounds(),
            r.wf(),
            Amplitude::spec_mutated(self, r),
    {
        Amplitude {
            attack: mutate_scalar(rng, self.attack, 0, 0, 5000, 10),
            sustain: mutate_scalar(rng, self.sustain, 0, 0, 5000, 10),
            punch: mutate_scalar(rng, self.punch, 0, 0, MILLI, 100),
            decay: mutate_scalar(rng, self.decay, 0, 0, 5000, 10),
            tremolo_depth: mutate_scalar(rng, self.tremolo_depth, 0, 0, MILLI, 10),
            tremolo_frequency: mutate_scalar(rng, self.tremolo_frequency, 10_000, 0, 1_000_000,
                1_000),
        }
    }
}

impl Filters {
    /// The filter fields' mutation-table bounds.
    pub open spec fn in_mutation_bounds(self) -> bool {
        &&& 0 <= self.flanger_offset <= 50_000
        &&& -50_000 <= self.flanger_offset_sweep <= 50_000
        &&& 1 <= self.bit_crush <= 16
        &&& -16 <= self.bit_crush_sweep <= 16
        &&& 0 <= self.low_pass_cutoff <= NYQUIST_MHZ
        &&& -NYQUIST_MHZ <= self.low_pass_sweep <= NYQUIST_MHZ
        &&& 0 <= self.high_pass_cutoff <= NYQUIST_MHZ
        &&& -NYQUIST_MHZ <= self.high_pass_sweep <= NYQUIST_MHZ
        &&& 0 <= self.compression <= 5000
    }

    /// Each filter field relates to its old value by the mutation table;
    /// the bit depths step by at most one.
    pub open spec fn spec_mutated(pre: Filters, post: Filters) -> bool {
        &&& spec_mutated_scalar(pre.flanger_offset as int, 0, 0, 50_000, 1_000,
            post.flanger_offset as int)
        &&& spec_mutated_scalar(pre.flanger_offset_sweep as int, 0, -50_000, 50_000, 1_000,
            post.flanger_offset_sweep as int)
        &&& spec_stepped(pre.bit_crush as int, 1, 16, post.bit_crush as int)
        &&& spec_stepped(pre.bit_crush_sweep as int, -16, 16, post.bit_crush_sweep as int)
        &&& spec_mutated_scalar(pre.low_pass_cutoff as int, NYQUIST_MHZ as int, 0,
            NYQUIST_MHZ as int, 100_000, post.low_pass_cutoff as int)
        &&& spec_mutated_scalar(pre.low_pass_sweep as int, 0, -(NYQUIST_MHZ as int),
            NYQUIST_MHZ as int, 100_000, post.low_pass_sweep as int)
        &&& spec_mutated_scalar(pre.high_pass_cutoff as int, 0, 0, NYQUIST_MHZ as int, 100_000,
            post.high_pass_cutoff as int)
        &&& spec_mutated_scalar(pre.high_pass_sweep as int, 0, -(NYQUIST_MHZ as int),
            NYQUIST_MHZ as int, 100_000, post.high_pass_sweep as int)
        &&& spec_mutated_scalar(pre.compression as int, MILLI as int, 0, 5000, 100,
            post.compression as int)
    }

    /// Mutate every filter field against its table entry; bit depths move
    /// by whole bits, at most one per mutation.
    pub fn mutate(self, rng: &mut funutd::Rnd) -> (r: Filters)
        requires
            self.wf(),
        ensures
            r.in_mutation_bounds(),
            r.wf(),
            Filters::spec_mutated(self, r),
            self.bit_crush - 1 <= r.bit_crush <= self.bit_crush + 1,
            self.bit_crush_sweep - 1 <= r.bit_crush_sweep <= self.bit_crush_sweep + 1,
    {
        Filters {
            flanger_offset: mutate_scalar(rng, self.flanger_offset, 0, 0, 50_000, 1_000),
            flanger_offset_sweep: mutate_scalar(rng, self.flanger_offset_sweep, 0, -50_000,
                50_000, 1_000),
            bit_crush: mutate_int(rng, self.bit_crush, 1, 16),
            bit_crush_sweep: mutate_int(rng, self.bit_crush_sweep, -16, 16),
            low_pass_cutoff: mutate_scalar(rng, self.low_pass_cutoff, NYQUIST_MHZ, 0, NYQUIST_MHZ,
                100_000),
            low_pass_sweep: mutate_scalar(rng, self.low_pass_sweep, 0, -NYQUIST_MHZ, NYQUIST_MHZ,
                100_000),
            high_pass_cutoff: mutate_scalar(rng, self.high_pass_cutoff, 0, 0, NYQUIST_MHZ,
                100_000),
            high_pass_sweep: mutate_scalar(rng, self.high_pass_sweep, 0, -NYQUIST_MHZ,
                NYQUIST_MHZ, 100_000),
            compression: mutate_scalar(rng, self.compression, MILLI, 0, 5000, 100),
        }
    }
}

impl Asyn {
    /// Every parameter group inside its mutation-table bounds.
    pub open spec fn in_mutation_bounds(self) -> bool {
        &&& self.pitch.in_mutation_bounds()
        &&& self.tone.in_mutation_bounds()
        &&& self.amplitude.in_mutation_bounds()
        &&& match self.filters {
            Some(f) => f.in_mutation_bounds(),
            None => false,
        }
    }

    /// The filter settings a mutation starts from: the sound's own, or the
    /// defaults when it carried none.
    pub open spec fn spec_filter_base(self) -> Filters {
        match self.filters {
            Some(f) => f,
            None => Filters::spec_default(),
        }
    }

    /// Mutate the whole description: every group against its table, with
    /// default filter settings materialized first if the sound had none.
    /// The result is always well formed, inside the tables' bounds, and
    /// field by field within one quantized nudge of the input.
    pub fn mutate(self, rng: &mut funutd::Rnd) -> (r: Asyn)
        requires
            self.wf(),
        ensures
            r.in_mutation_bounds(),
            r.wf(),
            r.seed == self.seed,
            r.mutations == vstd::wrapping::u64_specs::wrapping_add(self.mutations, 1),
            Pitch::spec_mutated(self.pitch, r.pitch),
            Tone::spec_mutated(self.tone, r.tone),
            Amplitude::spec_mutated(self.amplitude, r.amplitude),
            r.filters matches Some(g) && Filters::spec_mutated(self.spec_filter_base(), g),
    {
        let filters = match &self.filters {
            Some(f) => *f,
            None => Filters::default(),
        };
        Asyn {
            seed: self.seed,
            mutations: self.mutations.wrapping_add(1),
            pitch: self.pitch.mutate(rng),
            tone: self.tone.mutate(rng),
            amplitude: self.amplitude.mutate(rng),
            filters: Some(filters.mutate(rng)),
        }
    }
}

/// Whether `s` holds the waveform `w`.
pub open spec fn spec_has(s: Seq<Waveform>, w: Waveform) -> bool {
    exists|i: int| 0 <= i < s.len() && #[trigger] s[i] == w
}

impl Waveform {
    /// Pick a waveform uniformly from a non-empty list of options.
    pub fn pick(set: &Vec<Waveform>, rng: &mut funutd::Rnd) -> (r: Waveform)
        requires
            0 < set@.len() <= 1000,
        ensures
            spec_has(set@, r),
    {
        let x = rand_i64_in(rng, 0, (set.len() - 1) as i64);
        let r = set[x as usize];
        proof {
            assert(set@[x as int] == r);
        }
        r
    }
}

/// Whether `set` holds `w`.
fn contains_waveform(set: &Vec<Waveform>, w: Waveform) -> (r: bool)
    ensures
        r == spec_has(set@, w),
{
    let mut k: usize = 0;
    while k < set.len()
        invariant
            k <= set@.len(),
            forall|i: int| 0 <= i < k ==> #[trigger] set@[i] != w,
        decreases set@.len() - k,
    {
        if set[k] == w {
            proof {
                assert(set@[k as int] == w);
            }
            return true;
        }
        k = k + 1;
    }
    false
}

impl Tone {
    /// A random tone drawn from a non-empty list of candidate waveforms.
    ///
    /// The waveform comes from the list; everything else is fixed by the
    /// list's contents: random duty settings exactly when a square wave is
    /// on offer, interpolation exactly when a noise waveform is, harmonics
    /// off, falloff at its default.
    pub fn pick(set: &Vec<Waveform>, rng: &mut funutd::Rnd) -> (r: Tone)
        requires
            0 < set@.len() <= 1000,
        ensures
            r.wf(),
            spec_has(set@, r.waveform),
            r.harmonics == 0,
            r.harmonics_falloff == 500,
            r.interpolate_noise == (spec_has(set@, Waveform::White) || spec_has(set@,
                Waveform::Pink) || spec_has(set@, Waveform::Brown)),
            spec_has(set@, Waveform::Square) ==> 0 <= r.square_duty <= MILLI && -MILLI
                <= r.square_duty_sweep <= MILLI,
            !spec_has(set@, Waveform::Square) ==> r.square_duty == 0 && r.square_duty_sweep == 0,
    {
        let waveform = Waveform::pick(set, rng);
        let has_square = contains_waveform(set, Waveform::Square);
        let has_noise = contains_waveform(set, Waveform::White) || contains_waveform(set,
            Waveform::Pink) || contains_waveform(set, Waveform::Brown);
        Tone {
            waveform,
            interpolate_noise: has_noise,
            square_duty: if has_square {
                rand_i64_in(rng, 0, MILLI)
            } else {
                0
            },
            square_duty_sweep: if has_square {
                rand_i64_in(rng, -MILLI, MILLI)
            } else {
                0
            },
            harmonics: 0,
            harmonics_falloff: 500,
        }
    }
}

} // verus!
