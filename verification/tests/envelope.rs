use asyn::env::{aspd, total_samples, tremolo};
use asyn::types::Amplitude;
use asyn::wave::WAVE_ONE;

fn plain(attack: i64, sustain: i64, punch: i64, decay: i64) -> Amplitude {
    Amplitude {
        attack,
        sustain,
        punch,
        decay,
        tremolo_depth: 0,
        tremolo_frequency: 0,
    }
}

/// The envelope is zero at time zero (when the attack covers at least one
/// sample) and zero again at attack + sustain + decay.
#[test]
fn envelope_boundaries() {
    let a = plain(100, 50, 0, 200);
    let sr = 1_000u32;
    let end = total_samples(&a, sr);
    assert_eq!(end, 350);
    assert_eq!(aspd(&a, 0, sr), 0);
    assert_eq!(aspd(&a, end, sr), 0);
    assert_eq!(aspd(&a, end + 1_000, sr), 0);

    // With punch the envelope still starts at zero.
    let p = plain(100, 50, 400, 200);
    assert_eq!(aspd(&p, 0, sr), 0);
    assert_eq!(aspd(&p, 350, sr), 0);
}

/// With no punch the envelope rises over the attack, holds at one over the
/// sustain, and falls over the decay — checked on a dense grid.
#[test]
fn envelope_monotone_grid() {
    let a = plain(100, 50, 0, 200);
    let sr = 1_000u32;
    let mut prev = aspd(&a, 0, sr);
    for i in 1..100 {
        let v = aspd(&a, i, sr);
        assert!(v >= prev, "attack must not decrease at {i}: {prev} -> {v}");
        prev = v;
    }
    for i in 100..150 {
        assert_eq!(aspd(&a, i, sr), WAVE_ONE, "sustain must hold full scale at {i}");
    }
    let mut prev = aspd(&a, 150, sr);
    for i in 151..=350 {
        let v = aspd(&a, i, sr);
        assert!(v <= prev, "decay must not increase at {i}: {prev} -> {v}");
        prev = v;
    }
}

/// Exact envelope values: the attack ramp is linear in the sample index.
#[test]
fn envelope_exact_values() {
    let a = plain(1_000, 0, 0, 1_000);
    let sr = 1_000u32;
    assert_eq!(aspd(&a, 500, sr), WAVE_ONE / 2);
    assert_eq!(aspd(&a, 250, sr), WAVE_ONE / 4);
    // Decay midpoint: half scale again.
    assert_eq!(aspd(&a, 1_500, sr), WAVE_ONE / 2);

    // Punch dips the attack target: at the end of the attack the gain is
    // 1 - punch.
    let p = plain(1_000, 1_000, 250, 0);
    let pw = 250 * WAVE_ONE / 1_000;
    assert_eq!(aspd(&p, 999, sr), (WAVE_ONE - pw) * 999 / 1_000);
    // During sustain the gain recovers from 1 - punch... starting at full
    // scale and dipping by punch as the formula lerps from 1 toward
    // 1 - punch over the sustain.
    assert_eq!(aspd(&p, 1_000, sr), WAVE_ONE);
    assert_eq!(aspd(&p, 1_999, sr), WAVE_ONE - pw * 999 / 1_000);
}

/// The tremolo gain starts at its deepest dip (cosine reference) and never
/// exceeds unity.
#[test]
fn tremolo_bounds() {
    let sr = 1_000u32;
    for i in 0..2_000 {
        let g = tremolo(500, 2_000, i, sr);
        assert!(0 <= g && g <= WAVE_ONE);
        assert!(g >= WAVE_ONE / 2 - 1, "a depth of one half dips at most to half scale: {g}");
    }
    // Zero depth leaves the gain at unity everywhere.
    for i in 0..100 {
        assert_eq!(tremolo(0, 2_000, i, sr), WAVE_ONE);
    }
}

/// The duration count rounds to the nearest sample.
#[test]
fn duration_rounding() {
    // 333 ms at 44100 Hz: 14685.3 -> 14685.
    assert_eq!(total_samples(&plain(0, 333, 0, 0), 44_100), 14_685);
    // 25 ms at 44100 Hz: 1102.5 -> 1103 (half rounds up).
    assert_eq!(total_samples(&plain(25, 0, 0, 0), 44_100), 1_103);
    assert_eq!(total_samples(&plain(0, 0, 0, 0), 44_100), 0);
}
