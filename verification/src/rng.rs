//! The injected source of uniform fixed-point fractions in `[0, 1)`.
//!
//! Every layer that needs randomness receives one `RandomSource` by
//! exclusive reference, so each render consumes a single sequential
//! stream of draws. A `Fixed` or `Seeded` source advances by a spec
//! function, which makes whole renders reproducible and lets callers
//! state exact contracts; a `System` source draws fresh entropy from
//! the `rand` crate and promises only the range of each draw.

use vstd::prelude::*;
use crate::fx::{SCALE, mul_s, fx_mul, lemma_mul_s_frac};

verus! {

/// Multiplier of the 64-bit linear congruential step.
pub const LCG_MUL: u64 = 6364136223846793005;

/// Increment of the 64-bit linear congruential step.
pub const LCG_INC: u64 = 1442695040888963407;

/// One draw of uniform values in `[0, 1)`, in fixed-point raw units.
pub enum RandomSource {
    /// Every draw returns the same fraction; the stream never advances.
    Fixed { value: i64 },
    /// A 64-bit linear congruential generator: deterministic in the seed.
    Seeded { state: u64 },
    /// Fresh entropy from the operating system's generator.
    System,
}

/// A `Fixed` source must hold a fraction in `[0, 1)`.
pub open spec fn source_wf(s: RandomSource) -> bool {
    match s {
        RandomSource::Fixed { value } => 0 <= value < SCALE,
        RandomSource::Seeded { .. } => true,
        RandomSource::System => true,
    }
}

/// A source whose whole stream is a function of its current value.
pub open spec fn deterministic(s: RandomSource) -> bool {
    !(s is System)
}

/// The successor state of the linear congruential generator.
#[verifier::opaque]
pub open spec fn lcg_next(state: u64) -> u64 {
    ((((state as int) * (LCG_MUL as int) + (LCG_INC as int)) % 0x1_0000_0000_0000_0000) as u64)
}

/// The fraction a state emits: the top 24 bits, reduced to `[0, SCALE)`.
#[verifier::opaque]
pub open spec fn lcg_out(state: u64) -> int {
    ((lcg_next(state) as int) / 0x100_0000_0000) % (SCALE as int)
}

/// The fraction the next draw returns, for a deterministic source.
pub open spec fn next_val(s: RandomSource) -> int {
    match s {
        RandomSource::Fixed { value } => value as int,
        RandomSource::Seeded { state } => lcg_out(state),
        RandomSource::System => 0,
    }
}

/// The source after one draw.
pub open spec fn next_src(s: RandomSource) -> RandomSource {
    match s {
        RandomSource::Fixed { value } => s,
        RandomSource::Seeded { state } => RandomSource::Seeded { state: lcg_next(state) },
        RandomSource::System => s,
    }
}

/// Relies on `rand::random`: one fresh draw from the thread-local
/// generator. Nothing can be promised of a random value.
pub assume_specification<T>[ rand::random::<T> ]() -> (r: T)
    where
        rand::distributions::Standard: rand::distributions::Distribution<T>,
;

/// One draw mapped to `[min, max]` as `min + (max - min) * draw`.
pub fn random_bounded(rng: &mut RandomSource, min: i64, max: i64) -> (r: i64)
    requires
        source_wf(*old(rng)),
        -2_000_000 <= min <= max <= 2_000_000,
    ensures
        source_wf(*final(rng)),
        deterministic(*final(rng)) == deterministic(*old(rng)),
        *final(rng) == next_src(*old(rng)),
        min <= r <= max,
        deterministic(*old(rng)) ==> r == min + mul_s((max - min) as int, next_val(*old(rng))),
{
    let d = rng.next_unit();
    proof {
        lemma_mul_s_frac((max - min) as int, d as int);
    }
    min + fx_mul(max - min, d)
}

impl RandomSource {
    /// A source every draw of which returns `value`.
    pub fn fixed(value: i64) -> (r: RandomSource)
        requires
            0 <= value < SCALE,
        ensures
            r == (RandomSource::Fixed { value }),
            source_wf(r),
    {
        RandomSource::Fixed { value }
    }

    /// A deterministic source seeded with `seed`.
    pub fn seeded(seed: u64) -> (r: RandomSource)
        ensures
            r == (RandomSource::Seeded { state: seed }),
            source_wf(r),
    {
        RandomSource::Seeded { state: seed }
    }

    /// A source backed by the operating system's generator.
    pub fn system() -> (r: RandomSource)
        ensures
            r == RandomSource::System,
            source_wf(r),
    {
        RandomSource::System
    }

    /// One uniform draw in `[0, 1)`, as a fixed-point fraction.
    pub fn next_unit(&mut self) -> (r: i64)
        requires
            source_wf(*old(self)),
        ensures
            source_wf(*final(self)),
            deterministic(*final(self)) == deterministic(*old(self)),
            *final(self) == next_src(*old(self)),
            0 <= r < SCALE,
            deterministic(*old(self)) ==> r == next_val(*old(self)),
    {
        match self {
            RandomSource::Fixed { value } => *value,
            RandomSource::Seeded { state } => {
                proof {
                    reveal(lcg_next);
                    reveal(lcg_out);
                    assert((*state as int) * (LCG_MUL as int) + (LCG_INC as int) <= u128::MAX)
                        by (nonlinear_arith)
                        requires
                            0 <= *state <= u64::MAX,
                    ;
                }
                let t: u128 = (*state as u128) * (LCG_MUL as u128) + (LCG_INC as u128);
                let ns: u64 = (t % 0x1_0000_0000_0000_0000u128) as u64;
                let out: u64 = (ns / 0x100_0000_0000) % (SCALE as u64);
                *state = ns;
                out as i64
            },
            RandomSource::System => {
                let raw: u64 = rand::random::<u64>();
                (raw % (SCALE as u64)) as i64
            },
        }
    }
}

} // verus!
