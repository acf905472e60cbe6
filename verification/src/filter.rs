//! Filter stages: one-pole low and high pass with per-sample cutoff, the
//! pink-noise colouring filter, the bit-depth quantizer, the variable-delay
//! flanger, and power-law compression.
//!
//! Every stage is a small state machine whose step is pinned exactly by a
//! spec function, so a chain of stages is a pure function of its input
//! history. Signals stay within `[-2 * WAVE_ONE, 2 * WAVE_ONE]`.

use vstd::prelude::*;
use crate::num::{clamp64, lemma_div_le_factor, lemma_tdiv_between, spec_clamp64, spec_round_div,
    spec_tdiv64, round_div64, tdiv64};
use crate::wave::WAVE_ONE;

verus! {

/// Upper magnitude bound for every signal travelling between stages.
pub const SIGNAL_MAX: i64 = 131072;

/// A signal sample within the headroom the stages are proved for.
pub open spec fn signal_ok(x: i64) -> bool {
    -SIGNAL_MAX <= x <= SIGNAL_MAX
}

/// The smoothing coefficient of a one-pole filter for cutoff `fc` millihertz
/// at rate `sr`, scaled by `WAVE_ONE`: the rational approximation
/// `w / (1 + w)` of `1 - exp(-w)` at `w = 2 pi * fc / sr`, clamped below
/// one.
pub open spec fn spec_pole_coeff(fc: int, sr: int) -> i64 {
    let w = (fc * 411_775) / (1000 * sr);
    spec_clamp64(0, WAVE_ONE - 1, (w * WAVE_ONE) / (WAVE_ONE + w)) as i64
}

/// Smoothing coefficient for cutoff `fc` millihertz at rate `sr`.
pub fn pole_coeff(fc: i64, sr: u32) -> (r: i64)
    requires
        0 <= fc <= 600_000_000,
        1 <= sr <= crate::env::SR_MAX,
    ensures
        r == spec_pole_coeff(fc as int, sr as int),
        0 <= r < WAVE_ONE,
{
    proof {
        assert(0 <= fc * 411_775 <= 250_000_000_000int * (1000 * sr)) by (nonlinear_arith)
            requires
                0 <= fc <= 600_000_000,
                1 <= sr,
        ;
        lemma_div_le_factor(fc as int * 411_775, 250_000_000_000int, 1000 * sr as int);
    }
    let w = fc * 411_775 / (1000 * (sr as i64));
    proof {
        assert(0 <= w * WAVE_ONE <= WAVE_ONE * (WAVE_ONE + w)) by (nonlinear_arith)
            requires
                0 <= w,
        ;
        lemma_div_le_factor(w as int * WAVE_ONE, WAVE_ONE as int, WAVE_ONE + w as int);
    }
    clamp64(0, WAVE_ONE - 1, w * WAVE_ONE / (WAVE_ONE + w))
}

/// A one-pole smoothing filter: the state chases the input by the fraction
/// `a / WAVE_ONE` each sample.
#[derive(Clone, Copy, Debug, PartialEq, Eq, Structural)]
pub struct OnePole {
    pub y: i64,
}

impl OnePole {
    /// The stored sample stays within the signal headroom.
    pub open spec fn wf(self) -> bool {
        signal_ok(self.y)
    }

    /// The state after smoothing toward `x` with coefficient `a`.
    pub open spec fn spec_step(self, x: i64, a: i64) -> i64 {
        (self.y + spec_tdiv64(a * (x - self.y), WAVE_ONE as int)) as i64
    }

    pub fn new() -> (r: OnePole)
        ensures
            r.y == 0,
            r.wf(),
    {
        OnePole { y: 0 }
    }

    /// Advance by one sample of input `x` with smoothing coefficient `a`;
    /// the new state, which is also the low-pass output, lands between the
    /// old state and `x`.
    pub fn tick(&mut self, x: i64, a: i64) -> (r: i64)
        requires
            old(self).wf(),
            signal_ok(x),
            0 <= a < WAVE_ONE,
        ensures
            final(self).y == old(self).spec_step(x, a),
            r == final(self).y,
            final(self).wf(),
            old(self).y <= x ==> old(self).y <= r <= x,
            x <= old(self).y ==> x <= r <= old(self).y,
    {
        let d = x - self.y;
        proof {
            if d >= 0 {
                assert(0 <= a * d <= d * WAVE_ONE) by (nonlinear_arith)
                    requires
                        0 <= a <= WAVE_ONE,
                        0 <= d,
                ;
                lemma_tdiv_between(a as int * d as int, 0, d as int, WAVE_ONE as int);
            } else {
                assert(d * WAVE_ONE <= a * d <= 0) by (nonlinear_arith)
                    requires
                        0 <= a <= WAVE_ONE,
                        d < 0,
                ;
                lemma_tdiv_between(a as int * d as int, d as int, 0, WAVE_ONE as int);
            }
        }
        let step = tdiv64(a * d, WAVE_ONE);
        self.y = self.y + step;
        self.y
    }
}

/// A one-pole high-pass: the complement of the low-pass against its input.
#[derive(Clone, Copy, Debug, PartialEq, Eq, Structural)]
pub struct HighPole {
    pub lp: OnePole,
}

impl HighPole {
    pub open spec fn wf(self) -> bool {
        self.lp.wf()
    }

    /// The retained low-frequency estimate after one sample.
    pub open spec fn spec_step(self, x: i64, a: i64) -> i64 {
        self.lp.spec_step(x, a)
    }

    /// The high-pass output for one sample: the input minus the smoothed
    /// low-frequency estimate, clamped to the signal headroom.
    pub open spec fn spec_out(self, x: i64, a: i64) -> i64 {
        spec_clamp64(-SIGNAL_MAX, SIGNAL_MAX as int, x - self.spec_step(x, a)) as i64
    }

    pub fn new() -> (r: HighPole)
        ensures
            r.lp.y == 0,
            r.wf(),
    {
        HighPole { lp: OnePole::new() }
    }

    /// Advance by one sample of input `x` with smoothing coefficient `a`.
    pub fn tick(&mut self, x: i64, a: i64) -> (r: i64)
        requires
            old(self).wf(),
            signal_ok(x),
            0 <= a < WAVE_ONE,
        ensures
            final(self).lp.y == old(self).spec_step(x, a),
            r == old(self).spec_out(x, a),
            final(self).wf(),
            signal_ok(r),
    {
        let low = self.lp.tick(x, a);
        clamp64(-SIGNAL_MAX, SIGNAL_MAX, x - low)
    }
}

/// The three-accumulator pink-noise colouring filter: a fixed bank of leaky
/// integrators whose weighted sum tilts white noise toward pink.
#[derive(Clone, Copy, Debug, PartialEq, Eq, Structural)]
pub struct PinkFilter {
    pub b0: i64,
    pub b1: i64,
    pub b2: i64,
}

impl PinkFilter {
    /// Accumulator bounds preserved by every step.
    pub open spec fn wf(self) -> bool {
        &&& -3_000_000 <= self.b0 <= 3_000_000
        &&& -600_000 <= self.b1 <= 600_000
        &&& -165_000 <= self.b2 <= 165_000
    }

    /// The accumulators after absorbing input `x`.
    pub open spec fn spec_step(self, x: i64) -> PinkFilter {
        PinkFilter {
            b0: spec_tdiv64(65_382 * self.b0 + 6_492 * x, WAVE_ONE as int) as i64,
            b1: spec_tdiv64(63_116 * self.b1 + 19_432 * x, WAVE_ONE as int) as i64,
            b2: spec_tdiv64(37_355 * self.b2 + 68_984 * x, WAVE_ONE as int) as i64,
        }
    }

    /// The output for input `x`: the weighted accumulator sum scaled down
    /// and clamped to the signal headroom.
    pub open spec fn spec_out(self, x: i64) -> i64 {
        let next = self.spec_step(x);
        spec_clamp64(-SIGNAL_MAX, SIGNAL_MAX as int, spec_tdiv64(
            (next.b0 + next.b1 + next.b2 + spec_tdiv64(12_111 * x, WAVE_ONE as int)) * 3277,
            WAVE_ONE as int,
        )) as i64
    }

    pub fn new() -> (r: PinkFilter)
        ensures
            r.b0 == 0 && r.b1 == 0 && r.b2 == 0,
            r.wf(),
    {
        PinkFilter { b0: 0, b1: 0, b2: 0 }
    }

    /// Absorb one sample of noise in `[-WAVE_ONE, WAVE_ONE]` and emit the
    /// pinkened sample.
    pub fn tick(&mut self, x: i64) -> (r: i64)
        requires
            old(self).wf(),
            -WAVE_ONE <= x <= WAVE_ONE,
        ensures
            *final(self) == old(self).spec_step(x),
            r == old(self).spec_out(x),
            final(self).wf(),
            signal_ok(r),
    {
        let ob0 = self.b0;
        let ob1 = self.b1;
        let ob2 = self.b2;
        proof {
            assert(-(3_000_000int * WAVE_ONE) <= 65_382 * ob0 + 6_492 * x <= 3_000_000int
                * WAVE_ONE) by (nonlinear_arith)
                requires
                    -3_000_000 <= ob0 <= 3_000_000,
                    -(WAVE_ONE as int) <= x <= WAVE_ONE as int,
            ;
            lemma_tdiv_between(65_382int * ob0 + 6_492 * x, -3_000_000, 3_000_000,
                WAVE_ONE as int);
            assert(-(600_000int * WAVE_ONE) <= 63_116 * ob1 + 19_432 * x <= 600_000int
                * WAVE_ONE) by (nonlinear_arith)
                requires
                    -600_000 <= ob1 <= 600_000,
                    -(WAVE_ONE as int) <= x <= WAVE_ONE as int,
            ;
            lemma_tdiv_between(63_116int * ob1 + 19_432 * x, -600_000, 600_000, WAVE_ONE as int);
            assert(-(165_000int * WAVE_ONE) <= 37_355 * ob2 + 68_984 * x <= 165_000int
                * WAVE_ONE) by (nonlinear_arith)
                requires
                    -165_000 <= ob2 <= 165_000,
                    -(WAVE_ONE as int) <= x <= WAVE_ONE as int,
            ;
            lemma_tdiv_between(37_355int * ob2 + 68_984 * x, -165_000, 165_000, WAVE_ONE as int);
            assert(-(WAVE_ONE as int) * WAVE_ONE <= 12_111 * x <= WAVE_ONE as int * WAVE_ONE)
                by (nonlinear_arith)
                requires
                    -(WAVE_ONE as int) <= x <= WAVE_ONE as int,
            ;
            lemma_tdiv_between(12_111int * x, -(WAVE_ONE as int), WAVE_ONE as int,
                WAVE_ONE as int);
        }
        let b0 = tdiv64(65_382 * ob0 + 6_492 * x, WAVE_ONE);
        let b1 = tdiv64(63_116 * ob1 + 19_432 * x, WAVE_ONE);
        let b2 = tdiv64(37_355 * ob2 + 68_984 * x, WAVE_ONE);
        self.b0 = b0;
        self.b1 = b1;
        self.b2 = b2;
        let direct = tdiv64(12_111 * x, WAVE_ONE);
        let sum = b0 + b1 + b2 + direct;
        proof {
            assert(-(200_000_000int * WAVE_ONE) <= sum * 3277 <= 200_000_000int * WAVE_ONE)
                by (nonlinear_arith)
                requires
                    -4_000_000 <= sum <= 4_000_000,
            ;
            lemma_tdiv_between(sum as int * 3277, -200_000_000, 200_000_000, WAVE_ONE as int);
        }
        let scaled = tdiv64(sum * 3277, WAVE_ONE);
        clamp64(-SIGNAL_MAX, SIGNAL_MAX, scaled)
    }
}

/// The sample quantized to `2^bits` levels: the input is clamped to one
/// unit, shifted into `[0, 2]`, rounded onto the level grid and shifted
/// back.
pub open spec fn spec_bit_crush(x: i64, bits: i64) -> i64
    recommends
        1 <= bits <= 16,
{
    let xc = spec_clamp64(-WAVE_ONE, WAVE_ONE as int, x as int);
    let steps = (1i64 << (bits as u32)) as int;
    let q = spec_round_div((WAVE_ONE + xc) * steps, 2 * WAVE_ONE as int);
    (-WAVE_ONE + q * ((2 * WAVE_ONE) / steps)) as i64
}

/// Quantize `x` to `2^bits` amplitude levels.
pub fn bit_crush(x: i64, bits: i64) -> (r: i64)
    requires
        signal_ok(x),
        1 <= bits <= 16,
    ensures
        r == spec_bit_crush(x, bits),
        -WAVE_ONE <= r <= WAVE_ONE,
{
    let xc = clamp64(-WAVE_ONE, WAVE_ONE, x);
    let sh = bits as u32;
    let steps = 1i64 << sh;
    proof {
        assert(2 <= steps <= 65_536) by (bit_vector)
            requires
                1 <= sh <= 16,
                steps == 1i64 << sh,
        ;
        assert(steps == 1i64 << (bits as u32));
        assert(0 <= (WAVE_ONE + xc) * steps <= steps * (2 * WAVE_ONE)) by (nonlinear_arith)
            requires
                0 <= WAVE_ONE + xc <= 2 * WAVE_ONE,
                0 < steps,
        ;
        assert(steps * (2 * WAVE_ONE) <= 65_536int * 131_072) by (nonlinear_arith)
            requires
                0 < steps <= 65_536,
        ;
    }
    let num = (WAVE_ONE + xc) * steps;
    let q = round_div64(num, 2 * WAVE_ONE);
    let unit = 2 * WAVE_ONE / steps;
    proof {
        vstd::arithmetic::div_mod::lemma_fundamental_div_mod(2 * WAVE_ONE as int, steps as int);
        vstd::arithmetic::div_mod::lemma_mod_bound(2 * WAVE_ONE as int, steps as int);
        vstd::arithmetic::div_mod::lemma_div_is_ordered(num + WAVE_ONE, steps * (2 * WAVE_ONE)
            + WAVE_ONE, 2 * WAVE_ONE as int);
        vstd::arithmetic::div_mod::lemma_div_multiples_vanish_fancy(steps as int, WAVE_ONE as int,
            2 * WAVE_ONE as int);
        assert(q <= steps);
        assert(q * unit <= steps * unit) by (nonlinear_arith)
            requires
                0 <= q <= steps,
                0 <= unit,
        ;
        assert(steps * unit <= 2 * WAVE_ONE);
        assert(0 <= q * unit) by (nonlinear_arith)
            requires
                0 <= q,
                0 <= unit,
        ;
    }
    -WAVE_ONE + q * unit
}

/// The integer square root: the unique `r` with
/// `r * r <= v < (r + 1) * (r + 1)`.
pub open spec fn spec_isqrt(v: int) -> int
    recommends
        v >= 0,
{
    choose|r: int| 0 <= r && #[trigger] (r * r) <= v && v < (r + 1) * (r + 1)
}

/// Any value satisfying the square-root bracketing is the integer square
/// root: the bracketing has exactly one solution.
pub proof fn lemma_isqrt_unique(v: int, r: int)
    requires
        0 <= r,
        r * r <= v,
        v < (r + 1) * (r + 1),
    ensures
        spec_isqrt(v) == r,
{
    assert(exists|x: int| 0 <= x && #[trigger] (x * x) <= v && v < (x + 1) * (x + 1)) by {
        assert(0 <= r && r * r <= v && v < (r + 1) * (r + 1));
    }
    let c = spec_isqrt(v);
    assert(0 <= c && c * c <= v && v < (c + 1) * (c + 1));
    if c < r {
        assert((c + 1) * (c + 1) <= r * r) by (nonlinear_arith)
            requires
                0 <= c,
                c < r,
        ;
        assert(false);
    }
    if c > r {
        assert((r + 1) * (r + 1) <= c * c) by (nonlinear_arith)
            requires
                0 <= r,
                r < c,
        ;
        assert(false);
    }
}

/// Integer square root by binary search.
pub fn isqrt(v: u64) -> (r: u64)
    ensures
        r == spec_isqrt(v as int),
        r * r <= v,
        r <= 0xFFFF_FFFF,
{
    let mut lo: u64 = 0;
    let mut hi: u64 = 0x1_0000_0000;
    proof {
        assert((0x1_0000_0000int) * 0x1_0000_0000 > v as int) by (nonlinear_arith)
            requires
                v <= 0xFFFF_FFFF_FFFF_FFFFu64,
        ;
    }
    while hi - lo > 1
        invariant
            0 <= lo < hi <= 0x1_0000_0000,
            lo * lo <= v,
            (v as int) < (hi as int) * (hi as int),
        decreases hi - lo,
    {
        let mid = lo + (hi - lo) / 2;
        proof {
            assert((mid as int) * (mid as int) < 0x1_0000_0000_0000_0000int) by (nonlinear_arith)
                requires
                    0 <= mid < 0x1_0000_0000,
            ;
        }
        if mid * mid <= v {
            lo = mid;
        } else {
            hi = mid;
        }
    }
    proof {
        assert(hi == lo + 1);
        lemma_isqrt_unique(v as int, lo as int);
    }
    lo
}

/// `x` in `[0, WAVE_ONE]` raised to the whole power `n`, one truncating
/// multiply per step.
pub open spec fn spec_pow_int(x: int, n: nat) -> int
    decreases n,
{
    if n == 0 {
        WAVE_ONE as int
    } else {
        (spec_pow_int(x, (n - 1) as nat) * x) / WAVE_ONE as int
    }
}

/// The `k`-fold iterated square root of `x`, in `WAVE_ONE` scale:
/// `x^(1 / 2^k)`.
pub open spec fn spec_root_chain(x: int, k: nat) -> int
    decreases k,
{
    if k == 0 {
        x
    } else {
        spec_isqrt(spec_root_chain(x, (k - 1) as nat) * WAVE_ONE as int)
    }
}

/// The fractional-power accumulator after the first `k` binary digits of
/// the exponent fraction `fb` (a ten-bit fraction, most significant digit
/// first).
pub open spec fn spec_pow_frac(x: int, fb: u64, k: nat) -> int
    decreases k,
{
    if k == 0 {
        WAVE_ONE as int
    } else {
        let prev = spec_pow_frac(x, fb, (k - 1) as nat);
        if (fb >> ((10 - k) as u64)) & 1 == 1 {
            (prev * spec_root_chain(x, k)) / WAVE_ONE as int
        } else {
            prev
        }
    }
}

/// `x` in `[0, WAVE_ONE]` raised to the power `c / 1000`: the whole part by
/// repeated multiplication, the fractional part through ten binary digits
/// of iterated square roots.
pub open spec fn spec_pow_milli(x: i64, c: i64) -> int {
    let fb = (((c % 1000) * 1024) / 1000) as u64;
    (spec_pow_int(x as int, (c / 1000) as nat) * spec_pow_frac(x as int, fb, 10))
        / WAVE_ONE as int
}

/// Raise `x` in `[0, WAVE_ONE]` to the power `c / 1000`.
pub fn pow_milli(x: i64, c: i64) -> (r: i64)
    requires
        0 <= x <= WAVE_ONE,
        0 <= c <= 5000,
    ensures
        r == spec_pow_milli(x, c),
        0 <= r <= WAVE_ONE,
{
    let n = c / 1000;
    let mut acc: i64 = WAVE_ONE;
    let mut j: i64 = 0;
    while j < n
        invariant
            0 <= j <= n <= 5,
            0 <= x <= WAVE_ONE,
            0 <= acc <= WAVE_ONE,
            acc == spec_pow_int(x as int, j as nat),
        decreases n - j,
    {
        proof {
            assert(0 <= acc * x <= WAVE_ONE * WAVE_ONE) by (nonlinear_arith)
                requires
                    0 <= acc <= WAVE_ONE,
                    0 <= x <= WAVE_ONE,
            ;
            lemma_div_le_factor(acc as int * x as int, WAVE_ONE as int, WAVE_ONE as int);
        }
        acc = acc * x / WAVE_ONE;
        j = j + 1;
    }
    let fb = ((c % 1000) * 1024 / 1000) as u64;
    let mut root: i64 = x;
    let mut fracc: i64 = WAVE_ONE;
    let mut k: i64 = 1;
    while k <= 10
        invariant
            1 <= k <= 11,
            0 <= x <= WAVE_ONE,
            0 <= root <= WAVE_ONE,
            0 <= fracc <= WAVE_ONE,
            fb < 1024,
            root == spec_root_chain(x as int, (k - 1) as nat),
            fracc == spec_pow_frac(x as int, fb, (k - 1) as nat),
        decreases 11 - k,
    {
        proof {
            assert(0 <= root * WAVE_ONE <= WAVE_ONE * WAVE_ONE) by (nonlinear_arith)
                requires
                    0 <= root <= WAVE_ONE,
            ;
        }
        let rq = isqrt((root * WAVE_ONE) as u64);
        proof {
            assert(rq as int <= WAVE_ONE) by (nonlinear_arith)
                requires
                    (rq as int) * (rq as int) <= (root as int) * (WAVE_ONE as int),
                    0 <= root <= WAVE_ONE,
                    0 <= rq,
            ;
        }
        root = rq as i64;
        if (fb >> ((10 - k) as u64)) & 1 == 1 {
            proof {
                assert(0 <= fracc * root <= WAVE_ONE * WAVE_ONE) by (nonlinear_arith)
                    requires
                        0 <= fracc <= WAVE_ONE,
                        0 <= root <= WAVE_ONE,
                ;
                lemma_div_le_factor(fracc as int * root as int, WAVE_ONE as int,
                    WAVE_ONE as int);
            }
            fracc = fracc * root / WAVE_ONE;
        }
        k = k + 1;
    }
    proof {
        assert(0 <= acc * fracc <= WAVE_ONE * WAVE_ONE) by (nonlinear_arith)
            requires
                0 <= acc <= WAVE_ONE,
                0 <= fracc <= WAVE_ONE,
        ;
        lemma_div_le_factor(acc as int * fracc as int, WAVE_ONE as int, WAVE_ONE as int);
    }
    acc * fracc / WAVE_ONE
}

/// Power-law soft clip: `sign(x) * |x|^(c / 1000)` after clamping the
/// magnitude to one unit.
pub open spec fn spec_compress(x: i64, c: i64) -> i64 {
    let mag = spec_clamp64(0, WAVE_ONE as int, if x >= 0 {
        x as int
    } else {
        -(x as int)
    });
    if x >= 0 {
        spec_pow_milli(mag as i64, c) as i64
    } else {
        (-spec_pow_milli(mag as i64, c)) as i64
    }
}

/// Compress one sample by the power law `|x|^(c / 1000)`.
pub fn compress(x: i64, c: i64) -> (r: i64)
    requires
        signal_ok(x),
        0 <= c <= 5000,
    ensures
        r == spec_compress(x, c),
        -WAVE_ONE <= r <= WAVE_ONE,
{
    let mag = clamp64(0, WAVE_ONE, if x >= 0 {
        x
    } else {
        -x
    });
    let p = pow_milli(mag, c);
    if x >= 0 {
        p
    } else {
        -p
    }
}

/// The flanger delay line: a ring buffer mixing the input with a copy
/// delayed by a per-sample number of samples.
#[derive(Clone, Debug, PartialEq, Eq)]
pub struct Flanger {
    pub buf: Vec<i64>,
    pub pos: usize,
}

impl Flanger {
    /// Ring-buffer well-formedness: a bounded buffer of in-range samples
    /// with the cursor inside it.
    pub open spec fn wf(self) -> bool {
        &&& 1 <= self.buf@.len() <= 2_000_000
        &&& self.pos < self.buf@.len()
        &&& forall|i: int| 0 <= i < self.buf@.len() ==> signal_ok(#[trigger] self.buf@[i])
    }

    /// The slot the delayed sample is read from.
    pub open spec fn spec_read_index(self, d: usize) -> int {
        ((self.pos + self.buf@.len() - d) % (self.buf@.len() as int))
    }

    /// The mixed output: the input plus half the delayed sample, clamped to
    /// the signal headroom.
    pub open spec fn spec_out(self, x: i64, d: usize) -> i64 {
        spec_clamp64(-SIGNAL_MAX, SIGNAL_MAX as int, x + spec_tdiv64(
            self.buf@[self.spec_read_index(d)] as int,
            2,
        )) as i64
    }

    /// A silent delay line of `len` slots.
    pub fn new(len: usize) -> (r: Flanger)
        requires
            1 <= len <= 2_000_000,
        ensures
            r.wf(),
            r.buf@.len() == len,
            r.pos == 0,
            forall|i: int| 0 <= i < len ==> r.buf@[i] == 0,
    {
        let mut buf: Vec<i64> = Vec::new();
        let mut j: usize = 0;
        while j < len
            invariant
                j <= len,
                buf@.len() == j,
                forall|i: int| 0 <= i < j ==> buf@[i] == 0,
            decreases len - j,
        {
            buf.push(0);
            j = j + 1;
        }
        Flanger { buf, pos: 0 }
    }

    /// Mix one sample with the copy delayed by `d` samples, then record the
    /// input in the ring.
    pub fn tick(&mut self, x: i64, d: usize) -> (r: i64)
        requires
            old(self).wf(),
            signal_ok(x),
            d < old(self).buf@.len(),
        ensures
            final(self).buf@ == old(self).buf@.update(old(self).pos as int, x),
            final(self).pos == if old(self).pos + 1 == old(self).buf@.len() {
                0int
            } else {
                old(self).pos + 1
            },
            r == old(self).spec_out(x, d),
            final(self).wf(),
            signal_ok(r),
    {
        let l = self.buf.len();
        let idx = (self.pos + l - d) % l;
        let delayed = self.buf[idx];
        let half = tdiv64(delayed, 2);
        let out = clamp64(-SIGNAL_MAX, SIGNAL_MAX, x + half);
        self.buf[self.pos] = x;
        self.pos = if self.pos + 1 == l {
            0
        } else {
            self.pos + 1
        };
        out
    }
}

} // verus!
