//! The parameter model for one synthesized sound effect.
//!
//! All scalar parameters are fixed-point integers: frequencies in millihertz,
//! times in milliseconds, flanger delays in microseconds, unit-range
//! fractions in thousandths. Each structure carries a well-formedness
//! predicate giving the range every field must lie in; rendering and
//! mutation keep values inside those ranges.

use vstd::prelude::*;

verus! {

/// One thousandth steps: the fixed-point scale for unit-range fractions,
/// and the ratio between a unit and its milli-unit (Hz and mHz, s and ms).
pub const MILLI: i64 = 1000;

/// Half of the conventional 44.1 kHz sample rate, in millihertz: the cutoff
/// value at which the low-pass stage is disabled.
pub const NYQUIST_MHZ: i64 = 22_050_000;

/// The waveform driven by the pitch curve.
#[derive(Clone, Copy, Debug, PartialEq, Eq, Structural)]
pub enum Waveform {
    Sine,
    Triangle,
    Saw,
    Square,
    Tangent,
    Whistle,
    Breaker,
    White,
    Pink,
    Brown,
}

impl Waveform {
    /// The noise waveforms hold random values instead of shaping a phase.
    pub open spec fn spec_is_noise(self) -> bool {
        self == Waveform::White || self == Waveform::Pink || self == Waveform::Brown
    }

    /// Whether this waveform is one of the noise variants.
    pub fn is_noise(&self) -> (r: bool)
        ensures
            r == self.spec_is_noise(),
    {
        match self {
            Waveform::White | Waveform::Pink | Waveform::Brown => true,
            _ => false,
        }
    }

    /// The waveform at position `i` of the declaration order.
    pub open spec fn spec_from_index(i: int) -> Waveform {
        if i == 0 {
            Waveform::Sine
        } else if i == 1 {
            Waveform::Triangle
        } else if i == 2 {
            Waveform::Saw
        } else if i == 3 {
            Waveform::Square
        } else if i == 4 {
            Waveform::Tangent
        } else if i == 5 {
            Waveform::Whistle
        } else if i == 6 {
            Waveform::Breaker
        } else if i == 7 {
            Waveform::White
        } else if i == 8 {
            Waveform::Pink
        } else {
            Waveform::Brown
        }
    }

    /// The waveform at position `i` of the declaration order.
    pub fn from_index(i: i64) -> (r: Waveform)
        requires
            0 <= i <= 9,
        ensures
            r == Waveform::spec_from_index(i as int),
    {
        match i {
            0 => Waveform::Sine,
            1 => Waveform::Triangle,
            2 => Waveform::Saw,
            3 => Waveform::Square,
            4 => Waveform::Tangent,
            5 => Waveform::Whistle,
            6 => Waveform::Breaker,
            7 => Waveform::White,
            8 => Waveform::Pink,
            _ => Waveform::Brown,
        }
    }
}

/// A relative frequency jump: past `onset` (a fraction of the repeat cycle
/// in thousandths) the instantaneous frequency is scaled by
/// `1 + amount / 1000`.
#[derive(Clone, Copy, Debug, PartialEq, Eq, Structural)]
pub struct Jump {
    pub onset: i64,
    pub amount: i64,
}

/// The pitch envelope: a base frequency with linear and quadratic sweeps,
/// two relative frequency jumps, vibrato, and an optional repeat clock that
/// cycles the sweep position instead of running it once over the duration.
///
/// Frequencies are in millihertz; jump onsets are fractions of the repeat
/// cycle in thousandths; jump amounts are relative gains in thousandths.
#[derive(Clone, Copy, Debug, PartialEq, Eq, Structural)]
pub struct Pitch {
    pub frequency: i64,
    pub frequency_sweep: i64,
    pub frequency_delta_sweep: i64,
    pub vibrato_depth: i64,
    pub vibrato_frequency: i64,
    pub repeat_frequency: i64,
    pub frequency_jump1: Jump,
    pub frequency_jump2: Jump,
}

/// Default base frequency: 500 Hz.
pub const FREQUENCY_DEFAULT: i64 = 500_000;

/// Default vibrato rate: 10 Hz.
pub const VIBRATO_FREQUENCY_DEFAULT: i64 = 10_000;

/// Default onset of the first frequency jump: 33% of the cycle.
pub const FREQUENCY_JUMP1_ONSET_DEFAULT: i64 = 330;

/// Default onset of the second frequency jump: 66% of the cycle.
pub const FREQUENCY_JUMP2_ONSET_DEFAULT: i64 = 660;

impl Pitch {
    pub open spec fn spec_default() -> Pitch {
        Pitch {
            frequency: FREQUENCY_DEFAULT,
            frequency_sweep: 0,
            frequency_delta_sweep: 0,
            vibrato_depth: 0,
            vibrato_frequency: VIBRATO_FREQUENCY_DEFAULT,
            repeat_frequency: 0,
            frequency_jump1: Jump { onset: FREQUENCY_JUMP1_ONSET_DEFAULT, amount: 0 },
            frequency_jump2: Jump { onset: FREQUENCY_JUMP2_ONSET_DEFAULT, amount: 0 },
        }
    }

    /// Every field within the range the synthesis pipeline is proved against.
    pub open spec fn wf(self) -> bool {
        &&& 0 <= self.frequency <= 20_000_000
        &&& -10_000_000 <= self.frequency_sweep <= 10_000_000
        &&& -10_000_000 <= self.frequency_delta_sweep <= 10_000_000
        &&& 0 <= self.vibrato_depth <= 1_000_000
        &&& 0 <= self.vibrato_frequency <= 1_000_000
        &&& 0 <= self.repeat_frequency <= 100_000
        &&& 0 <= self.frequency_jump1.onset <= MILLI
        &&& -100_000 <= self.frequency_jump1.amount <= 100_000
        &&& 0 <= self.frequency_jump2.onset <= MILLI
        &&& -100_000 <= self.frequency_jump2.amount <= 100_000
    }

    /// Whether every field lies in its proved range.
    pub fn valid(&self) -> (r: bool)
        ensures
            r == self.wf(),
    {
        0 <= self.frequency && self.frequency <= 20_000_000 && -10_000_000
            <= self.frequency_sweep && self.frequency_sweep <= 10_000_000 && -10_000_000
            <= self.frequency_delta_sweep && self.frequency_delta_sweep <= 10_000_000
            && 0 <= self.vibrato_depth && self.vibrato_depth <= 1_000_000 && 0
            <= self.vibrato_frequency && self.vibrato_frequency <= 1_000_000 && 0
            <= self.repeat_frequency && self.repeat_frequency <= 100_000 && 0
            <= self.frequency_jump1.onset && self.frequency_jump1.onset <= MILLI && -100_000
            <= self.frequency_jump1.amount && self.frequency_jump1.amount <= 100_000 && 0
            <= self.frequency_jump2.onset && self.frequency_jump2.onset <= MILLI && -100_000
            <= self.frequency_jump2.amount && self.frequency_jump2.amount <= 100_000
    }
}

impl Default for Pitch {
    fn default() -> (r: Pitch)
        ensures
            r == Pitch::spec_default(),
            r.wf(),
    {
        Pitch {
            frequency: FREQUENCY_DEFAULT,
            frequency_sweep: 0,
            frequency_delta_sweep: 0,
            vibrato_depth: 0,
            vibrato_frequency: VIBRATO_FREQUENCY_DEFAULT,
            repeat_frequency: 0,
            frequency_jump1: Jump { onset: FREQUENCY_JUMP1_ONSET_DEFAULT, amount: 0 },
            frequency_jump2: Jump { onset: FREQUENCY_JUMP2_ONSET_DEFAULT, amount: 0 },
        }
    }
}

/// The tone: which waveform runs, its square duty settings, whether noise is
/// interpolated, and how many harmonic copies are stacked on top.
///
/// `square_duty` and its sweep, and `harmonics_falloff`, are fractions in
/// thousandths; `harmonics` is a plain count.
#[derive(Clone, Copy, Debug, PartialEq, Eq, Structural)]
pub struct Tone {
    pub waveform: Waveform,
    pub interpolate_noise: bool,
    pub square_duty: i64,
    pub square_duty_sweep: i64,
    pub harmonics: i64,
    pub harmonics_falloff: i64,
}

impl Tone {
    pub open spec fn spec_default() -> Tone {
        Tone {
            waveform: Waveform::Sine,
            interpolate_noise: true,
            square_duty: 500,
            square_duty_sweep: 0,
            harmonics: 0,
            harmonics_falloff: 500,
        }
    }

    pub open spec fn wf(self) -> bool {
        &&& 0 <= self.square_duty <= MILLI
        &&& -MILLI <= self.square_duty_sweep <= MILLI
        &&& 0 <= self.harmonics <= 5
        &&& 0 <= self.harmonics_falloff <= MILLI
    }

    /// Whether every field lies in its proved range.
    pub fn valid(&self) -> (r: bool)
        ensures
            r == self.wf(),
    {
        0 <= self.square_duty && self.square_duty <= MILLI && -MILLI <= self.square_duty_sweep
            && self.square_duty_sweep <= MILLI && 0 <= self.harmonics && self.harmonics <= 5 && 0
            <= self.harmonics_falloff && self.harmonics_falloff <= MILLI
    }
}

impl Default for Tone {
    fn default() -> (r: Tone)
        ensures
            r == Tone::spec_default(),
            r.wf(),
    {
        Tone {
            waveform: Waveform::Sine,
            interpolate_noise: true,
            square_duty: 500,
            square_duty_sweep: 0,
            harmonics: 0,
            harmonics_falloff: 500,
        }
    }
}

impl From<Waveform> for Tone {
    /// A tone of the given waveform with every other field at its default.
    fn from(waveform: Waveform) -> (r: Tone)
        ensures
            r == (Tone { waveform, ..Tone::spec_default() }),
            r.wf(),
    {
        Tone { waveform, ..Tone::default() }
    }
}

impl vstd::std_specs::convert::FromSpecImpl<Waveform> for Tone {
    open spec fn obeys_from_spec() -> bool {
        true
    }

    open spec fn from_spec(waveform: Waveform) -> Tone {
        Tone { waveform, ..Tone::spec_default() }
    }
}

/// The amplitude envelope: attack, sustain with an optional punch overshoot,
/// terminal decay, and a cosine tremolo.
///
/// `attack`, `sustain` and `decay` are milliseconds; `punch` and
/// `tremolo_depth` are fractions in thousandths; `tremolo_frequency` is in
/// millihertz.
#[derive(Clone, Copy, Debug, PartialEq, Eq, Structural)]
pub struct Amplitude {
    pub attack: i64,
    pub sustain: i64,
    pub punch: i64,
    pub decay: i64,
    pub tremolo_depth: i64,
    pub tremolo_frequency: i64,
}

impl Amplitude {
    pub open spec fn spec_default() -> Amplitude {
        Amplitude {
            attack: 0,
            sustain: 0,
            punch: 0,
            decay: 0,
            tremolo_depth: 0,
            tremolo_frequency: 0,
        }
    }

    pub open spec fn wf(self) -> bool {
        &&& 0 <= self.attack <= 5000
        &&& 0 <= self.sustain <= 5000
        &&& 0 <= self.punch <= MILLI
        &&& 0 <= self.decay <= 5000
        &&& 0 <= self.tremolo_depth <= MILLI
        &&& 0 <= self.tremolo_frequency <= 1_000_000
    }

    /// Whether every field lies in its proved range.
    pub fn valid(&self) -> (r: bool)
        ensures
            r == self.wf(),
    {
        0 <= self.attack && self.attack <= 5000 && 0 <= self.sustain && self.sustain <= 5000 && 0
            <= self.punch && self.punch <= MILLI && 0 <= self.decay && self.decay <= 5000 && 0
            <= self.tremolo_depth && self.tremolo_depth <= MILLI && 0 <= self.tremolo_frequency
            && self.tremolo_frequency <= 1_000_000
    }

    /// Total duration of the envelope in milliseconds.
    pub open spec fn spec_len(self) -> int {
        self.attack + self.sustain + self.decay
    }

    /// Total duration of the sound in milliseconds: attack plus sustain plus
    /// decay.
    pub fn len(&self) -> (r: i64)
        requires
            self.wf(),
        ensures
            r == self.spec_len(),
            0 <= r <= 15_000,
    {
        self.attack + self.sustain + self.decay
    }
}

impl Default for Amplitude {
    fn default() -> (r: Amplitude)
        ensures
            r == Amplitude::spec_default(),
            r.wf(),
    {
        Amplitude {
            attack: 0,
            sustain: 0,
            punch: 0,
            decay: 0,
            tremolo_depth: 0,
            tremolo_frequency: 0,
        }
    }
}

/// The filter chain settings. Each stage is disabled — skipped outright, not
/// run at a neutral setting — while its fields equal the defaults here.
///
/// `flanger_offset` and its sweep are microseconds; `bit_crush` and its
/// sweep are whole bits; cutoffs and their sweeps are millihertz;
/// `compression` is a power in thousandths.
#[derive(Clone, Copy, Debug, PartialEq, Eq, Structural)]
pub struct Filters {
    pub flanger_offset: i64,
    pub flanger_offset_sweep: i64,
    pub bit_crush: i64,
    pub bit_crush_sweep: i64,
    pub low_pass_cutoff: i64,
    pub low_pass_sweep: i64,
    pub high_pass_cutoff: i64,
    pub high_pass_sweep: i64,
    pub compression: i64,
}

impl Filters {
    pub open spec fn spec_default() -> Filters {
        Filters {
            flanger_offset: 0,
            flanger_offset_sweep: 0,
            bit_crush: 16,
            bit_crush_sweep: 0,
            low_pass_cutoff: NYQUIST_MHZ,
            low_pass_sweep: 0,
            high_pass_cutoff: 0,
            high_pass_sweep: 0,
            compression: MILLI,
        }
    }

    pub open spec fn wf(self) -> bool {
        &&& 0 <= self.flanger_offset <= 50_000
        &&& -50_000 <= self.flanger_offset_sweep <= 50_000
        &&& 1 <= self.bit_crush <= 16
        &&& -16 <= self.bit_crush_sweep <= 16
        &&& 0 <= self.low_pass_cutoff <= NYQUIST_MHZ
        &&& -NYQUIST_MHZ <= self.low_pass_sweep <= NYQUIST_MHZ
        &&& 0 <= self.high_pass_cutoff <= NYQUIST_MHZ
        &&& -NYQUIST_MHZ <= self.high_pass_sweep <= NYQUIST_MHZ
        &&& 0 <= self.compression <= 5000
    }

    /// Whether every field lies in its proved range.
    pub fn valid(&self) -> (r: bool)
        ensures
            r == self.wf(),
    {
        0 <= self.flanger_offset && self.flanger_offset <= 50_000 && -50_000
            <= self.flanger_offset_sweep && self.flanger_offset_sweep <= 50_000 && 1
            <= self.bit_crush && self.bit_crush <= 16 && -16 <= self.bit_crush_sweep
            && self.bit_crush_sweep <= 16 && 0 <= self.low_pass_cutoff && self.low_pass_cutoff
            <= NYQUIST_MHZ && -NYQUIST_MHZ <= self.low_pass_sweep && self.low_pass_sweep
            <= NYQUIST_MHZ && 0 <= self.high_pass_cutoff && self.high_pass_cutoff <= NYQUIST_MHZ
            && -NYQUIST_MHZ <= self.high_pass_sweep && self.high_pass_sweep <= NYQUIST_MHZ && 0
            <= self.compression && self.compression <= 5000
    }
}

impl Default for Filters {
    fn default() -> (r: Filters)
        ensures
            r == Filters::spec_default(),
            r.wf(),
    {
        Filters {
            flanger_offset: 0,
            flanger_offset_sweep: 0,
            bit_crush: 16,
            bit_crush_sweep: 0,
            low_pass_cutoff: NYQUIST_MHZ,
            low_pass_sweep: 0,
            high_pass_cutoff: 0,
            high_pass_sweep: 0,
            compression: MILLI,
        }
    }
}

/// A complete sound description: the seed that fixes all render-time
/// randomness, a mutation counter, and the four parameter groups.
#[derive(Clone, Copy, Debug, PartialEq, Eq, Structural)]
pub struct Asyn {
    pub seed: u64,
    pub mutations: u64,
    pub pitch: Pitch,
    pub tone: Tone,
    pub amplitude: Amplitude,
    pub filters: Option<Filters>,
}

impl Asyn {
    pub open spec fn spec_default() -> Asyn {
        Asyn {
            seed: 0,
            mutations: 0,
            pitch: Pitch::spec_default(),
            tone: Tone::spec_default(),
            amplitude: Amplitude::spec_default(),
            filters: None,
        }
    }

    pub open spec fn wf(self) -> bool {
        &&& self.pitch.wf()
        &&& self.tone.wf()
        &&& self.amplitude.wf()
        &&& match self.filters {
            Some(f) => f.wf(),
            None => true,
        }
    }

    /// Total duration of the sound in milliseconds.
    pub fn len(&self) -> (r: i64)
        requires
            self.wf(),
        ensures
            r == self.amplitude.spec_len(),
            0 <= r <= 15_000,
    {
        self.amplitude.len()
    }

    /// Whether every parameter group lies in its proved range.
    pub fn valid(&self) -> (r: bool)
        ensures
            r == self.wf(),
    {
        self.pitch.valid() && self.tone.valid() && self.amplitude.valid() && match &self.filters {
            Some(f) => f.valid(),
            None => true,
        }
    }
}

impl Default for Asyn {
    fn default() -> (r: Asyn)
        ensures
            r == Asyn::spec_default(),
            r.wf(),
    {
        Asyn {
            seed: 0,
            mutations: 0,
            pitch: Pitch::default(),
            tone: Tone::default(),
            amplitude: Amplitude::default(),
            filters: None,
        }
    }
}

} // verus!
