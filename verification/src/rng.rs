//! Deterministic sampling.
//!
//! Rendering draws millions of pseudo-random samples.  Instead of an implicit
//! thread-global generator, every sampling call threads an explicit `Rng`
//! value, so a render is reproducible given its seed and worker threads can
//! each own an independently seeded generator.  Fresh entropy, when a caller
//! wants it, comes from the `rand` crate through one trusted wrapper.

use vstd::prelude::*;

use crate::fx::{FX_ONE, SCALE};
use crate::vec3::{square_lens, Vec3};

verus! {

/// A default nonzero state for seeds that collapse to zero.
pub const SEED_FALLBACK: u64 = 0x9e3779b97f4a7c15;

/// One xorshift step of the generator state; never returns to zero from a
/// nonzero state, and maps zero to the fallback constant.
pub open spec fn rng_step(s: u64) -> u64 {
    let s0 = if s == 0 {
        SEED_FALLBACK
    } else {
        s
    };
    let a = s0 ^ (s0 >> 12);
    let b = a ^ (a << 25);
    b ^ (b >> 27)
}

/// The output drawn from a state: a 64-bit mix of the stepped state.
pub open spec fn rng_out(s: u64) -> u64 {
    (((rng_step(s) as int) * 0x2545f4914f6cdd1d) % 0x1_0000_0000_0000_0000) as u64
}

/// A fixed-point sample in `[0, 1)` taken from the low bits of an output.
pub open spec fn unit_of(bits: u64) -> i64 {
    (bits % (SCALE as u64)) as i64
}

/// Explicit pseudo-random generator state (xorshift with a multiplicative
/// output mix).
#[derive(Clone, Copy, Debug, PartialEq, Eq, Structural)]
pub struct Rng {
    pub s: u64,
}

impl Rng {
    /// A generator seeded from the given value.
    pub fn new(seed: u64) -> (r: Rng)
        ensures
            r.s == seed,
    {
        Rng { s: seed }
    }

    /// Derive an independent generator for a work item, mixing the item's
    /// coordinates into the seed so adjacent pixels are decorrelated.
    pub fn for_pixel(seed: u64, x: u64, y: u64) -> (r: Rng)
        ensures
            r.s == rng_step(rng_step(seed ^ rng_out(x ^ 0x1234_5678) ^ rng_out(
                y ^ 0x9abc_def0,
            ))),
    {
        let mixed: u64 = seed ^ Rng::mix(x ^ 0x1234_5678) ^ Rng::mix(y ^ 0x9abc_def0);
        let mut r = Rng { s: mixed };
        let _a = r.next_bits();
        let _b = r.next_bits();
        r
    }

    /// One output mix of a raw value (used only for seeding).
    fn mix(v: u64) -> (r: u64)
        ensures
            r == rng_out(v),
    {
        let s0: u64 = if v == 0 {
            SEED_FALLBACK
        } else {
            v
        };
        let a: u64 = s0 ^ (s0 >> 12);
        let b: u64 = a ^ (a << 25);
        let c: u64 = b ^ (b >> 27);
        proof {
            assert(c as u128 * 0x2545f4914f6cdd1du128 < 0x1_0000_0000_0000_0000u128
                * 0x1_0000_0000_0000_0000u128) by (nonlinear_arith)
                requires
                    (c as u128) < 0x1_0000_0000_0000_0000u128,
            ;
        }
        let r: u64 = ((c as u128 * 0x2545f4914f6cdd1du128) % 0x1_0000_0000_0000_0000u128) as u64;
        r
    }

    /// Draw 64 pseudo-random bits and advance the state.
    pub fn next_bits(&mut self) -> (r: u64)
        ensures
            final (self).s == rng_step(old(self).s),
            r == rng_out(old(self).s),
    {
        let s0: u64 = if self.s == 0 {
            SEED_FALLBACK
        } else {
            self.s
        };
        let a: u64 = s0 ^ (s0 >> 12);
        let b: u64 = a ^ (a << 25);
        let c: u64 = b ^ (b >> 27);
        self.s = c;
        proof {
            assert(c as u128 * 0x2545f4914f6cdd1du128 < 0x1_0000_0000_0000_0000u128
                * 0x1_0000_0000_0000_0000u128) by (nonlinear_arith)
                requires
                    (c as u128) < 0x1_0000_0000_0000_0000u128,
            ;
        }
        let r: u64 = ((c as u128 * 0x2545f4914f6cdd1du128) % 0x1_0000_0000_0000_0000u128) as u64;
        r
    }

    /// Draw a fixed-point sample in `[0, 1)`.
    pub fn next_unit(&mut self) -> (r: i64)
        ensures
            final (self).s == rng_step(old(self).s),
            r == unit_of(rng_out(old(self).s)),
            0 <= r < FX_ONE,
    {
        let bits = self.next_bits();
        (bits % (SCALE as u64)) as i64
    }

    /// Draw a sample in `[-1, 1)` for one coordinate of a rejection sample.
    fn next_signed_unit(&mut self) -> (r: i64)
        ensures
            -FX_ONE <= r < FX_ONE,
    {
        let u = self.next_unit();
        2 * u - FX_ONE
    }

    /// A pseudo-random point inside (or on) the unit sphere, by rejection
    /// sampling with a bounded retry count; the fallback is the centre.
    pub fn rand_in_unit_sphere(&mut self) -> (r: Vec3)
        ensures
            square_lens(r) <= FX_ONE as int,
    {
        let mut tries: usize = 0;
        while tries < 64
            invariant
                tries <= 64,
            decreases 64 - tries,
        {
            let p = Vec3 {
                x: self.next_signed_unit(),
                y: self.next_signed_unit(),
                z: self.next_signed_unit(),
            };
            if p.square_len() <= FX_ONE {
                return p;
            }
            tries = tries + 1;
        }
        Vec3::zero()
    }

    /// A pseudo-random point inside the unit disk in the `z = 0` plane.
    pub fn rand_in_unit_disk(&mut self) -> (r: Vec3)
        ensures
            square_lens(r) < FX_ONE as int,
            r.z == 0,
    {
        let mut tries: usize = 0;
        while tries < 64
            invariant
                tries <= 64,
            decreases 64 - tries,
        {
            let p = Vec3 { x: self.next_signed_unit(), y: self.next_signed_unit(), z: 0 };
            if p.dot(&p) < FX_ONE {
                return p;
            }
            tries = tries + 1;
        }
        Vec3::zero()
    }
}

/// Relies on `rand::random`: a fresh entropy-derived 64-bit seed.  Nothing is
/// promised of the value; every verified consumer works for any outcome.
#[verifier::external_body]
pub fn entropy_u64() -> u64 {
    rand::random()
}

} // verus!
