//! Tone mapping: averaging a pixel's accumulated radiance, gamma-correcting
//! with a square root, and writing byte channels into the shared buffer.

use vstd::prelude::*;
use crate::fixed::{Fx, SCALE, CLIP, clamp_fx, clamp_raw, sqrt_raw, is_isqrt};
use crate::vec3::ColorRGB;

verus! {

/// Clamp ceiling of a tone-mapped channel before encoding: just under one
/// (0.999 in fixed point), so an encoded byte never reaches 256.
pub const TONE_CEIL: i64 = 65470;

/// The byte a radiance channel encodes to: average over the samples
/// (multiplying by the reciprocal of the sample count), clamp into
/// `[0, 0.999]`, take the square root (gamma correction), then scale by 256
/// and truncate.
pub open spec fn spec_tone_channel(c: Fx, samples: int) -> int {
    let scale = Fx { v: SCALE }.spec_div(Fx::spec_raw(samples * SCALE));
    let x = c.spec_mul(scale);
    let clamped = Fx { v: clamp_raw(x.v as int, 0, TONE_CEIL as int) as i64 };
    let root = clamped.spec_sqrt();
    (root.v * 256) / (SCALE as int)
}

/// Square roots of values below one stay below one.
proof fn lemma_tone_root_bound(a: int)
    requires
        0 <= a <= TONE_CEIL,
    ensures
        0 <= sqrt_raw(a) < SCALE,
{
    if a > 0 {
        let n = a * (SCALE as int);
        crate::fixed::lemma_isqrt_exists(n);
        let r = crate::fixed::isqrt(n);
        assert(n < (SCALE as int) * (SCALE as int)) by (nonlinear_arith)
            requires
                0 <= a <= TONE_CEIL,
                n == a * (SCALE as int),
        ;
        assert(r < SCALE) by (nonlinear_arith)
            requires
                is_isqrt(n, r),
                n < (SCALE as int) * (SCALE as int),
        ;
    }
}

/// Every tone-mapped channel encodes to a byte.
pub proof fn lemma_tone_channel_bound(c: Fx, samples: int)
    requires
        samples >= 1,
    ensures
        0 <= spec_tone_channel(c, samples) <= 255,
{
    let scale = Fx { v: SCALE }.spec_div(Fx::spec_raw(samples * SCALE));
    let x = c.spec_mul(scale);
    let clamped = Fx { v: clamp_raw(x.v as int, 0, TONE_CEIL as int) as i64 };
    lemma_tone_root_bound(clamped.v as int);
}

/// Tone-mapping round trip at the clamp boundaries: a channel holding
/// exactly the sample count (so the average radiance is one) encodes to the
/// byte 255, and zero radiance encodes to 0.  This holds for sample counts
/// up to 512; beyond that the fixed-point reciprocal `1 / samples` is too
/// coarse for the average to stay above the 0.999 clamp.
#[verifier::rlimit(60)]
pub proof fn lemma_tone_round_trip(n: int)
    requires
        1 <= n <= 512,
    ensures
        spec_tone_channel(Fx::spec_raw(n * (SCALE as int)), n) == 255,
        spec_tone_channel(Fx { v: 0 }, n) == 0,
{
    let s_int = SCALE as int;
    let q = s_int / n;
    let c = Fx::spec_raw(n * s_int);
    assert(0 <= n * s_int <= CLIP) by (nonlinear_arith)
        requires
            1 <= n <= 512,
            s_int == SCALE as int,
    ;
    assert(c.v == n * s_int);
    // The reciprocal: (S * S) / (n * S) is exactly S / n.
    assert((s_int * s_int) / s_int == s_int) by (nonlinear_arith)
        requires
            s_int == 65536,
    ;
    vstd::arithmetic::div_mod::lemma_div_denominator(s_int * s_int, s_int, n);
    assert(s_int * n == n * s_int) by (nonlinear_arith);
    assert((s_int * s_int) / (n * s_int) == q);
    let scale = Fx { v: SCALE }.spec_div(c);
    assert(0 <= q <= s_int);
    assert(scale.v == q);
    // Averaging: (n * S * q) / S is exactly n * q.
    assert(crate::fixed::iabs(c.v as int) == n * s_int);
    assert((n * s_int) * q == (n * q) * s_int) by (nonlinear_arith);
    assert(((n * q) * s_int) / s_int == n * q) by (nonlinear_arith)
        requires
            0 <= n * q,
            s_int == 65536,
    ;
    vstd::arithmetic::div_mod::lemma_fundamental_div_mod(s_int, n);
    let rem = s_int % n;
    assert(s_int == n * q + rem);
    vstd::arithmetic::div_mod::lemma_mod_bound(s_int, n);
    assert(0 <= rem < n);
    assert(n * q == s_int - rem);
    assert(65025 <= n * q <= s_int);
    let x = c.spec_mul(scale);
    assert(x.v == n * q);
    let clamped = Fx { v: clamp_raw(x.v as int, 0, TONE_CEIL as int) as i64 };
    assert(65025 <= clamped.v <= TONE_CEIL);
    // The square root of anything at least 0.99220 (65025/65536) reaches
    // 65280 raw steps, and 65280 * 256 is exactly 255 * 65536.
    let m = (clamped.v as int) * s_int;
    crate::fixed::lemma_isqrt_exists(m);
    let root = crate::fixed::isqrt(m);
    assert(65025 * s_int == 65280 * 65280) by (nonlinear_arith)
        requires
            s_int == 65536,
    ;
    assert(m >= 65280 * 65280) by (nonlinear_arith)
        requires
            65025 <= clamped.v as int,
            m == (clamped.v as int) * s_int,
            s_int == 65536,
    ;
    assert(root >= 65280) by (nonlinear_arith)
        requires
            is_isqrt(m, root),
            m >= 65280 * 65280,
    ;
    lemma_tone_root_bound(clamped.v as int);
    assert(root < s_int);
    assert(root * 256 >= 65280 * 256);
    assert(root * 256 < 65536 * 256);
    assert((root * 256) / s_int == 255);
    assert(spec_tone_channel(c, n) == 255);
    // Zero stays zero through every stage.
    crate::fixed::lemma_mul_raw_zero(scale.v as int);
    assert(spec_tone_channel(Fx { v: 0 }, n) == 0);
}

/// Encode one radiance channel as a byte in `[0, 255]`.
pub fn tone_map_channel(c: Fx, samples_per_pixel: i32) -> (b: i32)
    requires
        c.wf(),
        1 <= samples_per_pixel,
    ensures
        b == spec_tone_channel(c, samples_per_pixel as int),
        0 <= b <= 255,
{
    let scale: Fx = Fx::one().div(Fx::from_int(samples_per_pixel));
    let x: Fx = c.mul(scale);
    let clamped: Fx = clamp_fx(x, Fx::zero(), Fx { v: TONE_CEIL });
    let root: Fx = clamped.sqrt();
    proof {
        lemma_tone_root_bound(clamped.v as int);
    }
    ((root.v as u64) * 256 / (SCALE as u64)) as i32
}

/// Tone map an accumulated pixel color and store its three bytes at pixel
/// `idx` of the flat buffer.
pub fn write_color_to_buf(
    pixels: &mut Vec<i32>,
    idx: usize,
    col: ColorRGB,
    samples_per_pixel: i32,
)
    requires
        col.wf(),
        1 <= samples_per_pixel,
        idx * 3 + 2 < old(pixels).len(),
    ensures
        final(pixels)@ == old(pixels)@.update(
            idx * 3 as int,
            spec_tone_channel(col.x, samples_per_pixel as int) as i32,
        ).update(
            idx * 3 + 1 as int,
            spec_tone_channel(col.y, samples_per_pixel as int) as i32,
        ).update(
            idx * 3 + 2 as int,
            spec_tone_channel(col.z, samples_per_pixel as int) as i32,
        ),
        final(pixels).len() == old(pixels).len(),
{
    let ir: i32 = tone_map_channel(col.x, samples_per_pixel);
    let ig: i32 = tone_map_channel(col.y, samples_per_pixel);
    let ib: i32 = tone_map_channel(col.z, samples_per_pixel);
    pixels.set(idx * 3, ir);
    pixels.set(idx * 3 + 1, ig);
    pixels.set(idx * 3 + 2, ib);
}

} // verus!
