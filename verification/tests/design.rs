use asyn::types::{Amplitude, Asyn, Filters, Pitch, Tone, Waveform, MILLI, NYQUIST_MHZ};

fn check_pitch_bounds(p: &Pitch) {
    assert!(10_000 <= p.frequency && p.frequency <= 10_000_000);
    assert!(-10_000_000 <= p.frequency_sweep && p.frequency_sweep <= 10_000_000);
    assert!(-10_000_000 <= p.frequency_delta_sweep && p.frequency_delta_sweep <= 10_000_000);
    assert!(0 <= p.vibrato_depth && p.vibrato_depth <= 1_000_000);
    assert!(0 <= p.vibrato_frequency && p.vibrato_frequency <= 1_000_000);
    assert!(0 <= p.repeat_frequency && p.repeat_frequency <= 100_000);
    assert!(0 <= p.frequency_jump1.onset && p.frequency_jump1.onset <= MILLI);
    assert!(0 <= p.frequency_jump1.amount && p.frequency_jump1.amount <= MILLI);
    assert!(0 <= p.frequency_jump2.onset && p.frequency_jump2.onset <= MILLI);
    assert!(0 <= p.frequency_jump2.amount && p.frequency_jump2.amount <= MILLI);
}

fn check_tone_bounds(t: &Tone) {
    assert!(0 <= t.square_duty && t.square_duty <= MILLI);
    assert!(-MILLI <= t.square_duty_sweep && t.square_duty_sweep <= MILLI);
    assert!(0 <= t.harmonics && t.harmonics <= 5);
    assert!(0 <= t.harmonics_falloff && t.harmonics_falloff <= MILLI);
}

fn check_amplitude_bounds(a: &Amplitude) {
    assert!(0 <= a.attack && a.attack <= 5_000);
    assert!(0 <= a.sustain && a.sustain <= 5_000);
    assert!(0 <= a.punch && a.punch <= MILLI);
    assert!(0 <= a.decay && a.decay <= 5_000);
    assert!(0 <= a.tremolo_depth && a.tremolo_depth <= MILLI);
    assert!(0 <= a.tremolo_frequency && a.tremolo_frequency <= 1_000_000);
}

fn check_filter_bounds(f: &Filters) {
    assert!(0 <= f.flanger_offset && f.flanger_offset <= 50_000);
    assert!(-50_000 <= f.flanger_offset_sweep && f.flanger_offset_sweep <= 50_000);
    assert!(1 <= f.bit_crush && f.bit_crush <= 16);
    assert!(-16 <= f.bit_crush_sweep && f.bit_crush_sweep <= 16);
    assert!(0 <= f.low_pass_cutoff && f.low_pass_cutoff <= NYQUIST_MHZ);
    assert!(-NYQUIST_MHZ <= f.low_pass_sweep && f.low_pass_sweep <= NYQUIST_MHZ);
    assert!(0 <= f.high_pass_cutoff && f.high_pass_cutoff <= NYQUIST_MHZ);
    assert!(-NYQUIST_MHZ <= f.high_pass_sweep && f.high_pass_sweep <= NYQUIST_MHZ);
    assert!(0 <= f.compression && f.compression <= 5_000);
}

/// A thousand mutations in a row never escape the mutation-table bounds.
#[test]
fn mutation_bounded() {
    let mut rng = funutd::Rnd::from_u64(42);
    let mut spec = Asyn::default();
    for _ in 0..1_000 {
        let prev_harmonics = spec.tone.harmonics;
        let prev_crush = spec.filters.as_ref().map(|f| f.bit_crush).unwrap_or(16);
        spec = spec.mutate(&mut rng);
        check_pitch_bounds(&spec.pitch);
        check_tone_bounds(&spec.tone);
        check_amplitude_bounds(&spec.amplitude);
        check_filter_bounds(spec.filters.as_ref().expect("mutation materializes filters"));
        assert!(spec.valid());
        assert!((spec.tone.harmonics - prev_harmonics).abs() <= 1);
        assert!((spec.filters.as_ref().unwrap().bit_crush - prev_crush).abs() <= 1);
    }
}

/// Mutation counts itself and keeps the seed.
#[test]
fn mutation_metadata() {
    let mut rng = funutd::Rnd::from_u64(7);
    let spec = Asyn {
        seed: 99,
        tone: Tone {
            waveform: Waveform::Breaker,
            ..Tone::default()
        },
        ..Asyn::default()
    };
    let m = spec.mutate(&mut rng);
    assert_eq!(m.seed, 99);
    assert_eq!(m.mutations, 1);
    let m2 = m.mutate(&mut rng);
    assert_eq!(m2.mutations, 2);
}

/// The waveform identity itself mutates with a small probability: over
/// many mutations it changes at least once, while each single mutation
/// usually leaves it alone.
#[test]
fn waveform_flips() {
    let mut rng = funutd::Rnd::from_u64(11);
    let mut spec = Asyn::default();
    let mut changes = 0usize;
    let mut prev = spec.tone.waveform;
    for _ in 0..500 {
        spec = spec.mutate(&mut rng);
        if spec.tone.waveform != prev {
            changes += 1;
        }
        prev = spec.tone.waveform;
    }
    assert!(changes >= 1, "the waveform should flip at least once in 500 mutations");
    assert!(changes < 250, "the flip should stay rare: {changes}");
}

/// A mutated description still renders, and renders deterministically.
#[test]
fn mutated_spec_renders() {
    let mut rng = funutd::Rnd::from_u64(1234);
    let mut spec = Asyn {
        tone: Tone {
            waveform: Waveform::Saw,
            ..Tone::default()
        },
        amplitude: Amplitude {
            sustain: 30,
            decay: 20,
            ..Amplitude::default()
        },
        ..Asyn::default()
    };
    for _ in 0..10 {
        spec = spec.mutate(&mut rng);
    }
    assert!(spec.valid());
    let b1 = spec.render(22_050);
    let b2 = spec.render(22_050);
    assert_eq!(b1, b2);
}

/// Picking always lands inside the offered set.
#[test]
fn pick_stays_in_set() {
    let mut rng = funutd::Rnd::from_u64(5);
    let set = vec![Waveform::Sine, Waveform::Square, Waveform::Whistle];
    for _ in 0..100 {
        let w = Waveform::pick(&set, &mut rng);
        assert!(set.contains(&w));
        let t = Tone::pick(&set, &mut rng);
        assert!(set.contains(&t.waveform));
        check_tone_bounds(&t);
    }
}

/// A tone built from a waveform keeps the defaults otherwise.
#[test]
fn tone_from_waveform() {
    let t = Tone::from(Waveform::Tangent);
    assert_eq!(t.waveform, Waveform::Tangent);
    assert_eq!(t.square_duty, 500);
    assert_eq!(t.harmonics, 0);
    assert!(t.interpolate_noise);
}

/// Exactly the three noise variants report as noise.
#[test]
fn noise_waveforms() {
    let noisy = [Waveform::White, Waveform::Pink, Waveform::Brown];
    for w in [
        Waveform::Sine,
        Waveform::Triangle,
        Waveform::Saw,
        Waveform::Square,
        Waveform::Tangent,
        Waveform::Whistle,
        Waveform::Breaker,
        Waveform::White,
        Waveform::Pink,
        Waveform::Brown,
    ] {
        assert_eq!(w.is_noise(), noisy.contains(&w));
    }
}

/// The defaults are valid and a default sound is silent (zero length).
#[test]
fn defaults_are_valid() {
    let spec = Asyn::default();
    assert!(spec.valid());
    assert_eq!(spec.len(), 0);
    assert!(Filters::default().valid());
    assert_eq!(Filters::default().low_pass_cutoff, NYQUIST_MHZ);
    assert_eq!(Pitch::default().frequency, 500_000);
}
