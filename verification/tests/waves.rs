use asyn::filter::{bit_crush, compress, pole_coeff, HighPole, OnePole, PinkFilter};
use asyn::num::round_to;
use asyn::osc::{Noise, PhaseOsc, Square};
use asyn::types::Waveform;
use asyn::wave::{breaker, cosine, saw, sine, tangent, triangle, whistle, WAVE_ONE};

/// Exact shape values at the cardinal phases.
#[test]
fn shape_cardinal_values() {
    // Triangle: 0 at phase 0, peak at a quarter, back through zero at half.
    assert_eq!(triangle(0), 0);
    assert_eq!(triangle(0x2000_0000), WAVE_ONE / 2);
    assert_eq!(triangle(0x4000_0000), WAVE_ONE);
    assert_eq!(triangle(0x8000_0000), 0);
    assert_eq!(triangle(0xC000_0000), -WAVE_ONE);

    // Saw: rises to one over the first half, jumps to minus one.
    assert_eq!(saw(0), 0);
    assert_eq!(saw(0x4000_0000), WAVE_ONE / 2);
    assert_eq!(saw(0x8000_0000), -WAVE_ONE);

    // Parabolic sine: zero at the ends of each arch, peak at a quarter.
    assert_eq!(sine(0), 0);
    assert_eq!(sine(0x4000_0000), WAVE_ONE);
    assert_eq!(sine(0x8000_0000), 0);
    assert_eq!(sine(0xC000_0000), -WAVE_ONE);

    // Cosine starts at full scale.
    assert_eq!(cosine(0), WAVE_ONE);

    // Whistle at a quarter: fundamental at peak, overtone back at zero.
    assert_eq!(whistle(0x4000_0000), (3 * WAVE_ONE) / 4);
}

/// Every shape stays inside two units over a dense phase sweep.
#[test]
fn shapes_bounded() {
    for k in 0..10_000u64 {
        let p = (k * 429_497) as u32;
        for v in [triangle(p), saw(p), sine(p), cosine(p), whistle(p)] {
            assert!(-WAVE_ONE <= v && v <= WAVE_ONE);
        }
        for v in [tangent(p), breaker(p)] {
            assert!(-2 * WAVE_ONE <= v && v <= 2 * WAVE_ONE);
        }
    }
}

/// Oscillators advance their phase by frequency over sample rate.
#[test]
fn phase_advance() {
    let mut o = PhaseOsc::new(Waveform::Saw);
    // 1000 Hz at 44100 Hz for 441 ticks is ten full cycles: phase returns
    // near zero and the output near zero.
    let mut last = 0i64;
    for _ in 0..441 {
        last = o.tick(1_000_000, 44_100);
    }
    assert!(last.abs() < WAVE_ONE / 50, "ten cycles return near zero: {last}");

    let mut sq = Square::new();
    // Duty of one half: at a quarter cycle in, output is high.
    let high = sq.tick(11_025_000, 1u64 << 31, 44_100);
    assert_eq!(high, WAVE_ONE);

    // Resetting rewinds the phase: the same first tick repeats.
    let mut o2 = PhaseOsc::new(Waveform::Triangle);
    let first = o2.tick(441_000, 44_100);
    let _ = o2.tick(441_000, 44_100);
    o2.reset();
    assert_eq!(o2.tick(441_000, 44_100), first);
    sq.reset();
    assert_eq!(sq.tick(11_025_000, 1u64 << 31, 44_100), high);

    // A reset noise unit replays its seeded sequence.
    let mut n = Noise::new(8, false);
    let a = n.tick(22_050_000, 44_100);
    let b = n.tick(22_050_000, 44_100);
    n.reset(8);
    assert_eq!(n.tick(22_050_000, 44_100), a);
    assert_eq!(n.tick(22_050_000, 44_100), b);
}

/// Noise is reproducible from its seed and bounded.
#[test]
fn noise_seeded() {
    let mut n1 = Noise::new(99, true);
    let mut n2 = Noise::new(99, true);
    let mut n3 = Noise::new(100, true);
    let mut differs = false;
    for _ in 0..500 {
        let a = n1.tick(22_050_000, 44_100);
        let b = n2.tick(22_050_000, 44_100);
        let c = n3.tick(22_050_000, 44_100);
        assert_eq!(a, b);
        assert!(-WAVE_ONE <= a && a <= WAVE_ONE);
        if a != c {
            differs = true;
        }
    }
    assert!(differs, "different seeds should give different noise");
}

/// Bit crushing to one bit leaves only the extremes (and the zero that an
/// exactly-centred sample rounds to).
#[test]
fn bit_crush_exact() {
    assert_eq!(bit_crush(0, 1), 0);
    assert_eq!(bit_crush(WAVE_ONE, 1), WAVE_ONE);
    assert_eq!(bit_crush(-WAVE_ONE, 1), -WAVE_ONE);
    assert_eq!(bit_crush(WAVE_ONE / 3, 1), 0);
    assert_eq!(bit_crush(2 * WAVE_ONE / 3, 1), WAVE_ONE);
    // Sixteen bits pass small values through almost unchanged.
    let v = 12_345i64;
    assert!((bit_crush(v, 16) - v).abs() <= 2);
}

/// The power-law compressor: identity at power one, square at power two,
/// square root at one half, sign preserved.
#[test]
fn compress_exact() {
    assert_eq!(compress(WAVE_ONE, 2_000), WAVE_ONE);
    assert_eq!(compress(32_768, 1_000), 32_768);
    assert_eq!(compress(-32_768, 1_000), -32_768);
    // (1/2)^2 = 1/4.
    assert_eq!(compress(WAVE_ONE / 2, 2_000), WAVE_ONE / 4);
    // sqrt(1/4) = 1/2, up to fixed-point truncation.
    let r = compress(WAVE_ONE / 4, 500);
    assert!((r - WAVE_ONE / 2).abs() < 200, "sqrt of a quarter is near a half: {r}");
    // Power zero sends everything to full scale.
    assert_eq!(compress(123, 0), WAVE_ONE);
}

/// One-pole filters move toward the input and never overshoot.
#[test]
fn one_pole_behaviour() {
    let a = pole_coeff(1_000_000, 44_100);
    assert!(0 < a && a < WAVE_ONE);
    let mut lp = OnePole::new();
    let mut prev = 0i64;
    for _ in 0..200 {
        let y = lp.tick(WAVE_ONE, a);
        assert!(prev <= y && y <= WAVE_ONE);
        prev = y;
    }
    assert!(prev > WAVE_ONE / 2, "the low pass should approach the held input: {prev}");

    let mut hp = HighPole::new();
    let mut last = 0i64;
    for _ in 0..2_000 {
        last = hp.tick(WAVE_ONE, a);
    }
    assert!(last.abs() < WAVE_ONE / 8, "a high pass kills a held constant: {last}");
}

/// The pink filter tracks its input's polarity on a held signal and stays
/// bounded on noise.
#[test]
fn pink_filter_bounded() {
    let mut pf = PinkFilter::new();
    let mut n = Noise::new(3, false);
    for _ in 0..5_000 {
        let w = n.tick(22_050_000, 44_100);
        let y = pf.tick(w);
        assert!(-2 * WAVE_ONE <= y && y <= 2 * WAVE_ONE);
    }
}

/// Rounding to a step is half-away-from-zero and exact on multiples.
#[test]
fn round_to_exact() {
    assert_eq!(round_to(1_234, 100), 1_200);
    assert_eq!(round_to(1_250, 100), 1_300);
    assert_eq!(round_to(-1_250, 100), -1_300);
    assert_eq!(round_to(-1_234, 100), -1_200);
    assert_eq!(round_to(500, 500), 500);
    assert_eq!(round_to(0, 7), 0);
}
