use asyn::types::{Amplitude, Asyn, Filters, Pitch, Tone, Waveform};

fn positive_fraction(buf: &[i16]) -> f64 {
    let pos = buf.iter().filter(|s| **s > 0).count();
    pos as f64 / buf.len() as f64
}

/// A square tone whose duty sweeps in step with the pitch repeat clock:
/// the duty must rise and fall once per repeat cycle, not once over the
/// whole sound.
#[test]
fn square_duty_sweep_repeat() {
    let spec = Asyn {
        pitch: Pitch {
            frequency: 220_000,
            repeat_frequency: 2_000,
            ..Pitch::default()
        },
        tone: Tone {
            waveform: Waveform::Square,
            square_duty: 100,
            square_duty_sweep: 900,
            ..Tone::default()
        },
        amplitude: Amplitude {
            sustain: 2_000,
            ..Amplitude::default()
        },
        ..Asyn::default()
    };
    let buf = spec.render(44_100);
    assert_eq!(buf.len(), 88_200);

    // The 2 Hz repeat clock gives a 22050-sample cycle. Early in each
    // cycle the duty sits near 0.1; late in each cycle it approaches 1.0.
    let early1 = positive_fraction(&buf[0..2_205]);
    let late1 = positive_fraction(&buf[19_845..22_050]);
    let early2 = positive_fraction(&buf[22_050..24_255]);
    let late2 = positive_fraction(&buf[41_895..44_100]);
    assert!(early1 < 0.35, "duty near the cycle start should be low: {early1}");
    assert!(late1 > 0.6, "duty near the cycle end should be high: {late1}");
    assert!(early2 < 0.35, "the sweep must restart each cycle: {early2}");
    assert!(late2 > 0.6, "the sweep must rise again each cycle: {late2}");
}

/// Crushing to four bits leaves at most seventeen distinct sample values.
#[test]
fn bit_crush() {
    let spec = Asyn {
        pitch: Pitch {
            frequency: 110_000,
            ..Pitch::default()
        },
        tone: Tone {
            waveform: Waveform::Triangle,
            harmonics: 4,
            harmonics_falloff: 900,
            ..Tone::default()
        },
        amplitude: Amplitude {
            sustain: 100,
            ..Amplitude::default()
        },
        filters: Some(Filters {
            bit_crush: 4,
            ..Filters::default()
        }),
        ..Asyn::default()
    };
    let buf = spec.render(44_100);
    assert_eq!(buf.len(), 4_410);
    let mut distinct: Vec<i16> = buf.clone();
    distinct.sort();
    distinct.dedup();
    assert!(distinct.len() <= 17, "4-bit crush leaves at most 17 levels: {}", distinct.len());
}

/// Rendering the same description twice gives byte-identical buffers.
#[test]
fn render_deterministic() {
    for &wf in &[Waveform::Sine, Waveform::White, Waveform::Pink, Waveform::Brown] {
        let spec = Asyn {
            seed: 12_345,
            pitch: Pitch {
                frequency: 330_000,
                frequency_sweep: -200_000,
                vibrato_depth: 20_000,
                ..Pitch::default()
            },
            tone: Tone {
                waveform: wf,
                harmonics: 2,
                ..Tone::default()
            },
            amplitude: Amplitude {
                attack: 50,
                sustain: 100,
                punch: 300,
                decay: 150,
                tremolo_depth: 200,
                tremolo_frequency: 5_000,
                ..Amplitude::default()
            },
            filters: Some(Filters {
                flanger_offset: 5_000,
                bit_crush: 12,
                low_pass_cutoff: 8_000_000,
                high_pass_cutoff: 100_000,
                compression: 1_500,
                ..Filters::default()
            }),
            ..Asyn::default()
        };
        let b1 = spec.render(44_100);
        let b2 = spec.render(44_100);
        assert_eq!(b1, b2);
    }
}

/// Buffer length is the duration times the rate, rounded to the nearest
/// sample.
#[test]
fn render_duration() {
    let spec = Asyn {
        amplitude: Amplitude {
            attack: 123,
            sustain: 456,
            decay: 789,
            ..Amplitude::default()
        },
        ..Asyn::default()
    };
    // 1368 ms at 44100 Hz: 60328.8 samples, rounded to 60329.
    assert_eq!(spec.render(44_100).len(), 60_329);
    // 1368 ms at 8000 Hz: 10944 samples exactly.
    assert_eq!(spec.render(8_000).len(), 10_944);
    // 1368 ms at 1 Hz: 1.368 samples, rounded to 1.
    assert_eq!(spec.render(1).len(), 1);
}

/// An all-zero envelope renders to an empty buffer.
#[test]
fn zero_length_render() {
    let spec = Asyn {
        amplitude: Amplitude {
            attack: 0,
            sustain: 0,
            punch: 0,
            decay: 0,
            ..Amplitude::default()
        },
        ..Asyn::default()
    };
    assert_eq!(spec.render(44_100).len(), 0);
}

/// Filters at their no-op defaults render exactly like no filters at all.
#[test]
fn neutral_filters_identity() {
    for &wf in &[Waveform::Whistle, Waveform::Breaker, Waveform::White] {
        let base = Asyn {
            seed: 777,
            pitch: Pitch {
                frequency: 440_000,
                vibrato_depth: 10_000,
                ..Pitch::default()
            },
            tone: Tone {
                waveform: wf,
                ..Tone::default()
            },
            amplitude: Amplitude {
                attack: 20,
                sustain: 80,
                decay: 40,
                ..Amplitude::default()
            },
            filters: None,
            ..Asyn::default()
        };
        let with_defaults = Asyn {
            filters: Some(Filters::default()),
            ..base.clone()
        };
        assert_eq!(base.render(22_050), with_defaults.render(22_050));
    }
}

/// The effective cutoffs stay inside [0, sr/2] for any settings the type
/// admits, including sweeps that push past zero or the Nyquist rate.
#[test]
fn cutoff_clamped() {
    let sr = 44_100u32;
    let total = 44_100i64;
    let over = Filters {
        low_pass_cutoff: 22_050_000,
        low_pass_sweep: 22_050_000,
        high_pass_cutoff: 22_050_000,
        high_pass_sweep: 22_050_000,
        ..Filters::default()
    };
    let under = Filters {
        low_pass_cutoff: 0,
        low_pass_sweep: -22_050_000,
        high_pass_cutoff: 0,
        high_pass_sweep: -22_050_000,
        ..Filters::default()
    };
    for &i in &[0i64, 11_025, 22_050, 44_099] {
        let lp_hi = asyn::net::lp_cutoff(&over, i, total, sr);
        let hp_hi = asyn::net::hp_cutoff(&over, i, total, sr);
        let lp_lo = asyn::net::lp_cutoff(&under, i, total, sr);
        let hp_lo = asyn::net::hp_cutoff(&under, i, total, sr);
        for v in [lp_hi, hp_hi, lp_lo, hp_lo] {
            assert!(0 <= v && v <= 500 * sr as i64, "cutoff out of range: {v}");
        }
    }
    // Near the end of the sound the upward sweep is far past Nyquist.
    assert_eq!(asyn::net::lp_cutoff(&over, 44_099, total, sr), 22_050_000);
    // The downward sweep would be negative; it pins at zero.
    assert_eq!(asyn::net::lp_cutoff(&under, 44_099, total, sr), 0);
}
