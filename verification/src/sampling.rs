//! Random vector draws used by materials and the camera lens.
//!
//! Rejection sampling runs a bounded number of rounds and falls back to the
//! zero vector, which every caller treats as the degenerate case; each draw
//! still guarantees its geometric bound.

use vstd::prelude::*;
use crate::fixed::{Fx, SCALE, CLIP};
use crate::vec3::{Vec3, unit_vector, dot};
use crate::rng::{RandomSource, random_fx, random_fx_normalized, spec_advance, spec_unit_draw, spec_range_draw};

verus! {

/// One candidate point for ball sampling: three `[-1, 1)` draws from state
/// `s`, and the state left afterwards.
pub open spec fn spec_ball_attempt(s: u64) -> (Vec3, u64) {
    let min = Fx { v: (-(SCALE as int)) as i64 };
    let max = Fx { v: SCALE };
    (
        Vec3 {
            x: spec_range_draw(s, min, max),
            y: spec_range_draw(spec_advance(s), min, max),
            z: spec_range_draw(spec_advance(spec_advance(s)), min, max),
        },
        spec_advance(spec_advance(spec_advance(s))),
    )
}

/// Rejection sampling of the unit ball from state `s`: keep drawing until a
/// candidate falls strictly inside, for at most `fuel` rounds, after which
/// the draw degenerates to the zero vector.
pub open spec fn spec_ball_draw(s: u64, fuel: nat) -> (Vec3, u64)
    decreases fuel,
{
    if fuel == 0 {
        (Vec3 { x: Fx { v: 0 }, y: Fx { v: 0 }, z: Fx { v: 0 } }, s)
    } else {
        let attempt = spec_ball_attempt(s);
        if attempt.0.spec_length2().v < SCALE {
            attempt
        } else {
            spec_ball_draw(attempt.1, (fuel - 1) as nat)
        }
    }
}

/// One candidate point for disk sampling: two `[-1, 1)` draws from state
/// `s` with a zero third component, and the state left afterwards.
pub open spec fn spec_disk_attempt(s: u64) -> (Vec3, u64) {
    let min = Fx { v: (-(SCALE as int)) as i64 };
    let max = Fx { v: SCALE };
    (
        Vec3 {
            x: spec_range_draw(s, min, max),
            y: spec_range_draw(spec_advance(s), min, max),
            z: Fx { v: 0 },
        },
        spec_advance(spec_advance(s)),
    )
}

/// Rejection sampling of the unit disk from state `s`, like the ball.
pub open spec fn spec_disk_draw(s: u64, fuel: nat) -> (Vec3, u64)
    decreases fuel,
{
    if fuel == 0 {
        (Vec3 { x: Fx { v: 0 }, y: Fx { v: 0 }, z: Fx { v: 0 } }, s)
    } else {
        let attempt = spec_disk_attempt(s);
        if attempt.0.spec_length2().v < SCALE {
            attempt
        } else {
            spec_disk_draw(attempt.1, (fuel - 1) as nat)
        }
    }
}

/// How many rejection rounds a sampler runs before giving up.
pub const SAMPLE_ROUNDS: u64 = 64;

/// Negating a vector keeps its squared length.
pub proof fn lemma_length2_neg(v: Vec3)
    requires
        v.wf(),
    ensures
        v.spec_neg().spec_length2() == v.spec_length2(),
{
}

impl Vec3 {
    /// A vector with each component uniform in `[0, 1)`, drawn in x, y, z
    /// order.
    pub fn random_normalized(src: &mut RandomSource) -> (r: Vec3)
        ensures
            final(src).state == spec_advance(spec_advance(spec_advance(old(src).state))),
            r.x == spec_unit_draw(old(src).state),
            r.y == spec_unit_draw(spec_advance(old(src).state)),
            r.z == spec_unit_draw(spec_advance(spec_advance(old(src).state))),
            r.wf(),
            0 <= r.x.v < SCALE,
            0 <= r.y.v < SCALE,
            0 <= r.z.v < SCALE,
    {
        let x: Fx = random_fx_normalized(src);
        let y: Fx = random_fx_normalized(src);
        let z: Fx = random_fx_normalized(src);
        Vec3 { x, y, z }
    }

    /// A vector with each component uniform in `[min, max)`.
    pub fn random(src: &mut RandomSource, min: Fx, max: Fx) -> (r: Vec3)
        requires
            min.wf(),
            max.wf(),
            min.v < max.v,
            max.v - min.v <= CLIP,
        ensures
            final(src).state == spec_advance(spec_advance(spec_advance(old(src).state))),
            r.x == spec_range_draw(old(src).state, min, max),
            r.y == spec_range_draw(spec_advance(old(src).state), min, max),
            r.z == spec_range_draw(spec_advance(spec_advance(old(src).state)), min, max),
            r.wf(),
            min.v <= r.x.v < max.v,
            min.v <= r.y.v < max.v,
            min.v <= r.z.v < max.v,
    {
        let x: Fx = random_fx(src, min, max);
        let y: Fx = random_fx(src, min, max);
        let z: Fx = random_fx(src, min, max);
        Vec3 { x, y, z }
    }

    /// A point strictly inside the unit ball, by rejection; the zero vector
    /// if no round of sampling lands inside.
    pub fn random_in_unit_sphere(src: &mut RandomSource) -> (r: Vec3)
        ensures
            r == spec_ball_draw(old(src).state, SAMPLE_ROUNDS as nat).0,
            final(src).state == spec_ball_draw(old(src).state, SAMPLE_ROUNDS as nat).1,
            r.wf(),
            r.spec_length2().v < SCALE,
    {
        let mut k: u64 = 0;
        while k < SAMPLE_ROUNDS
            invariant
                k <= SAMPLE_ROUNDS,
                spec_ball_draw(old(src).state, SAMPLE_ROUNDS as nat) == spec_ball_draw(
                    src.state,
                    (SAMPLE_ROUNDS - k) as nat,
                ),
            decreases SAMPLE_ROUNDS - k,
        {
            let v: Vec3 = Vec3::random(src, Fx::from_int(-1), Fx::one());
            if v.length2().lt(Fx::one()) {
                return v;
            }
            k = k + 1;
        }
        let z: Vec3 = Vec3::zeros();
        proof {
            crate::vec3::lemma_length2_zero(z);
        }
        z
    }

    /// A point inside the unit ball on the side of `normal`.
    pub fn random_in_hemisphere(src: &mut RandomSource, normal: Vec3) -> (r: Vec3)
        requires
            normal.wf(),
        ensures
            ({
                let v = spec_ball_draw(old(src).state, SAMPLE_ROUNDS as nat).0;
                r == if normal.spec_dot(v).v > 0 {
                    v
                } else {
                    v.spec_neg()
                }
            }),
            final(src).state == spec_ball_draw(old(src).state, SAMPLE_ROUNDS as nat).1,
            r.wf(),
            r.spec_length2().v < SCALE,
    {
        let v: Vec3 = Vec3::random_in_unit_sphere(src);
        let d: Fx = dot(normal, v);
        if d.v > 0 {
            v
        } else {
            proof {
                lemma_length2_neg(v);
            }
            v.neg()
        }
    }

    /// A direction of (approximately) unit length, uniform over the sphere.
    pub fn random_unit_vector(src: &mut RandomSource) -> (r: Vec3)
        ensures
            r == crate::vec3::spec_unit(spec_ball_draw(old(src).state, SAMPLE_ROUNDS as nat).0),
            final(src).state == spec_ball_draw(old(src).state, SAMPLE_ROUNDS as nat).1,
            r.wf(),
    {
        unit_vector(Vec3::random_in_unit_sphere(src))
    }

    /// A point strictly inside the unit disk of the xy-plane, used to sample
    /// a camera lens; the zero vector if no round lands inside.
    pub fn random_in_unit_disk(src: &mut RandomSource) -> (r: Vec3)
        ensures
            r == spec_disk_draw(old(src).state, SAMPLE_ROUNDS as nat).0,
            final(src).state == spec_disk_draw(old(src).state, SAMPLE_ROUNDS as nat).1,
            r.wf(),
            r.spec_length2().v < SCALE,
            r.z.v == 0,
    {
        let mut k: u64 = 0;
        while k < SAMPLE_ROUNDS
            invariant
                k <= SAMPLE_ROUNDS,
                spec_disk_draw(old(src).state, SAMPLE_ROUNDS as nat) == spec_disk_draw(
                    src.state,
                    (SAMPLE_ROUNDS - k) as nat,
                ),
            decreases SAMPLE_ROUNDS - k,
        {
            let x: Fx = random_fx(src, Fx::from_int(-1), Fx::one());
            let y: Fx = random_fx(src, Fx::from_int(-1), Fx::one());
            let v: Vec3 = Vec3 { x, y, z: Fx::zero() };
            if v.length2().lt(Fx::one()) {
                return v;
            }
            k = k + 1;
        }
        let z: Vec3 = Vec3::zeros();
        proof {
            crate::vec3::lemma_length2_zero(z);
        }
        z
    }
}

} // verus!
