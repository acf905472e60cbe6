//! The entropy source for sound design: funutd's Krull64 generator, used
//! for parameter mutation and preset picking — never inside rendering,
//! which draws only from each noise unit's own seeded generator.
//!
//! Only the raw 64-bit draw is trusted; range reduction and biased coin
//! flips are verified code on top of it.

use vstd::prelude::*;

verus! {

/// Declares funutd::Rnd (the Krull64 generator) so its values can flow
/// through verified signatures; the state itself stays opaque.
#[verifier::external_type_specification]
#[verifier::external_body]
pub struct ExRnd(funutd::Rnd);

/// Relies on funutd::Rnd::from_u64: builds a Krull64 generator from a
/// 64-bit seed; never panics.
pub assume_specification [ funutd::Rnd::from_u64 ] (seed: u64) -> funutd::Rnd;

/// Relies on funutd::Rnd::u64: returns the generator's next 64-bit draw
/// and advances its state; never panics.
pub assume_specification [ funutd::Rnd::u64 ] (rnd: &mut funutd::Rnd) -> u64;

/// A uniform draw in `[lo, hi]`.
pub fn rand_i64_in(rng: &mut funutd::Rnd, lo: i64, hi: i64) -> (r: i64)
    requires
        lo <= hi,
        hi - lo < i64::MAX,
    ensures
        lo <= r <= hi,
{
    let x = rng.u64();
    let span = ((hi - lo) as u64) + 1;
    let off = (x % span) as i64;
    lo + off
}

/// A coin flip that lands true with probability `p / 1000`.
pub fn chance_milli(rng: &mut funutd::Rnd, p: i64) -> bool
    requires
        0 <= p <= 1000,
{
    let x = rng.u64();
    (x % 1000) < (p as u64)
}

} // verus!
