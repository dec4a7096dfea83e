//! An explicitly passed random source.
//!
//! Each rendering task owns one `RandomSource`, so sampling independence
//! across parallel scanlines is a visible contract rather than a property of
//! a hidden global generator.  The generator itself (a SplitMix64 step) is
//! verified against an exact specification; only seeding from the host's
//! entropy is trusted.

use vstd::prelude::*;
use crate::fixed::{Fx, SCALE, CLIP};

verus! {

/// Additive constant of the SplitMix64 state advance.
pub const GOLDEN: u64 = 0x9E37_79B9_7F4A_7C15;

/// First multiplier of the SplitMix64 output mix.
pub const MIX1: u64 = 0xBF58_476D_1CE4_E5B9;

/// Second multiplier of the SplitMix64 output mix.
pub const MIX2: u64 = 0x94D0_49BB_1331_11EB;

/// Sum modulo 2^64.
pub open spec fn wadd(a: u64, b: u64) -> u64 {
    ((a + b) % 0x1_0000_0000_0000_0000) as u64
}

/// Product modulo 2^64.
pub open spec fn wmul(a: u64, b: u64) -> u64 {
    ((a * b) % 0x1_0000_0000_0000_0000) as u64
}

/// The state that follows `s`.
pub open spec fn spec_advance(s: u64) -> u64 {
    wadd(s, GOLDEN)
}

/// The output drawn from a state.
pub open spec fn spec_mix(s: u64) -> u64 {
    let z1 = wmul(s ^ (s >> 30), MIX1);
    let z2 = wmul(z1 ^ (z1 >> 27), MIX2);
    z2 ^ (z2 >> 31)
}

/// Sum modulo 2^64, executable.
fn wrapping_add64(a: u64, b: u64) -> (r: u64)
    ensures
        r == wadd(a, b),
{
    let w: u128 = (a as u128) + (b as u128);
    #[verifier::truncate] let r: u64 = (w % 0x1_0000_0000_0000_0000) as u64;
    r
}

/// Product modulo 2^64, executable.
fn wrapping_mul64(a: u64, b: u64) -> (r: u64)
    ensures
        r == wmul(a, b),
{
    proof {
        assert((a as int) * (b as int) < (0x1_0000_0000_0000_0000_0000_0000_0000_0000 as int))
            by (nonlinear_arith)
            requires
                0 <= (a as int) < (0x1_0000_0000_0000_0000 as int),
                0 <= (b as int) < (0x1_0000_0000_0000_0000 as int),
        ;
    }
    let w: u128 = (a as u128) * (b as u128);
    #[verifier::truncate] let r: u64 = (w % 0x1_0000_0000_0000_0000) as u64;
    r
}

/// A task-owned pseudo-random source: SplitMix64 state.
pub struct RandomSource {
    pub state: u64,
}

/// Relies on rand::random::<u64>: one draw from the host's thread-local
/// generator, used only to seed a task's source.
#[verifier::external_body]
fn entropy_u64() -> u64 {
    rand::random::<u64>()
}

impl RandomSource {
    /// A source that will replay a fixed sequence: same seed, same draws.
    pub fn from_seed(seed: u64) -> (r: RandomSource)
        ensures
            r.state == seed,
    {
        RandomSource { state: seed }
    }

    /// A source seeded from the host's entropy.
    pub fn from_entropy() -> RandomSource {
        RandomSource { state: entropy_u64() }
    }

    /// Draw the next 64 random bits and advance the state.
    pub fn next_u64(&mut self) -> (r: u64)
        ensures
            final(self).state == spec_advance(old(self).state),
            r == spec_mix(final(self).state),
    {
        self.state = wrapping_add64(self.state, GOLDEN);
        let s: u64 = self.state;
        let z1: u64 = wrapping_mul64(s ^ (s >> 30), MIX1);
        let z2: u64 = wrapping_mul64(z1 ^ (z1 >> 27), MIX2);
        z2 ^ (z2 >> 31)
    }
}

/// The `[0, 1)` value drawn from state `s`: the low bits of the next output.
pub open spec fn spec_unit_draw(s: u64) -> Fx {
    Fx { v: (spec_mix(spec_advance(s)) % (SCALE as u64)) as i64 }
}

/// The `[min, max)` value drawn from state `s`.
pub open spec fn spec_range_draw(s: u64, min: Fx, max: Fx) -> Fx {
    min.spec_add(spec_unit_draw(s).spec_mul(max.spec_sub(min)))
}

/// A uniform draw from `[0, 1)`: the low bits of the next output.
pub fn random_fx_normalized(src: &mut RandomSource) -> (r: Fx)
    ensures
        final(src).state == spec_advance(old(src).state),
        r == spec_unit_draw(old(src).state),
        0 <= r.v < SCALE,
        r.wf(),
{
    let bits: u64 = src.next_u64();
    Fx { v: (bits % (SCALE as u64)) as i64 }
}

/// A uniform draw from `[min, max)`.
pub fn random_fx(src: &mut RandomSource, min: Fx, max: Fx) -> (r: Fx)
    requires
        min.wf(),
        max.wf(),
        min.v < max.v,
        max.v - min.v <= CLIP,
    ensures
        final(src).state == spec_advance(old(src).state),
        r == spec_range_draw(old(src).state, min, max),
        min.v <= r.v < max.v,
        r.wf(),
{
    let u: Fx = random_fx_normalized(src);
    let d: Fx = max.sub(min);
    let step: Fx = u.mul(d);
    proof {
        assert((u.v as int) * (d.v as int) <= (SCALE - 1) * (d.v as int)) by (nonlinear_arith)
            requires
                0 <= u.v as int <= SCALE - 1,
                0 <= d.v as int,
        ;
        assert(((SCALE - 1) * (d.v as int)) / (SCALE as int) < d.v as int) by (nonlinear_arith)
            requires
                1 <= d.v as int,
        ;
        assert(0 <= (u.v as int) * (d.v as int) / (SCALE as int)) by (nonlinear_arith)
            requires
                0 <= u.v as int,
                0 <= d.v as int,
        ;
        vstd::arithmetic::div_mod::lemma_div_is_ordered(
            (u.v as int) * (d.v as int),
            (SCALE - 1) * (d.v as int),
            SCALE as int,
        );
    }
    min.add(step)
}

} // verus!
