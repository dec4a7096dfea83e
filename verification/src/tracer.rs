//! The path integrator and the per-scanline frame renderer.
//!
//! `ray_color` follows one sample's light path: intersect, scatter,
//! accumulate attenuation, until absorption, escape to the background
//! gradient, or depth exhaustion.  `render_line` drives the anti-aliasing
//! sample loop for every pixel of one scanline and tone-maps the result into
//! that scanline's slice of the pixel buffer.

use vstd::prelude::*;
use crate::fixed::{Fx, SCALE, CLIP};
use crate::vec3::{Vec3, ColorRGB, Ray3, unit_vector, lerp3, spec_unit, spec_lerp3};
use crate::geometry::{HittableObject, SamplingCfg, spec_hit, lemma_hit_props};
use crate::material::{MaterialCollection, is_unit_color, lemma_unit_color_product};
use crate::camera::Camera;
use crate::rng::{RandomSource, random_fx_normalized};
use crate::color::write_color_to_buf;

verus! {

/// Lower bound of the hit interval, in raw steps: just above zero, so a
/// scattered ray cannot immediately re-hit the surface it left.
pub const T_MIN_RAW: i64 = 65;

/// Half a unit, in raw steps.
pub const HALF_RAW: i64 = 32768;

/// The interval every path segment is intersected over: `[T_MIN_RAW, CLIP]`,
/// the upper bound standing in for infinity.
pub open spec fn spec_base_cfg() -> SamplingCfg {
    SamplingCfg { t_min: Fx { v: T_MIN_RAW }, t_max: Fx { v: CLIP } }
}

/// The interval every path segment is intersected over.
pub fn base_cfg() -> (c: SamplingCfg)
    ensures
        c == spec_base_cfg(),
        c.wf(),
{
    SamplingCfg::new(Fx { v: T_MIN_RAW }, Fx::infinity())
}

/// Opaque white: the color that filters nothing.
pub open spec fn spec_white() -> ColorRGB {
    Vec3 { x: Fx { v: SCALE }, y: Fx { v: SCALE }, z: Fx { v: SCALE } }
}

/// The sky color at the top of the background gradient: (0.5, 0.7, 1.0),
/// with 0.7 at its nearest fixed-point value below.
pub open spec fn spec_sky() -> ColorRGB {
    Vec3 { x: Fx { v: HALF_RAW }, y: Fx { v: 45875 }, z: Fx { v: SCALE } }
}

/// Black: the zero radiance contribution.
pub open spec fn spec_zero_color() -> ColorRGB {
    Vec3 { x: Fx { v: 0 }, y: Fx { v: 0 }, z: Fx { v: 0 } }
}

/// The background gradient a ray escapes into: a vertical blend from white
/// (looking down) to sky blue (looking up), keyed by the normalized
/// direction's y component.
pub open spec fn spec_background(r: Ray3) -> ColorRGB {
    let udir = spec_unit(r.dir);
    let t = Fx { v: HALF_RAW }.spec_mul(udir.y.spec_add(Fx { v: SCALE }));
    spec_lerp3(spec_white(), spec_sky(), t)
}

/// The sky color, as a value.
pub fn sky_color() -> (c: ColorRGB)
    ensures
        c == spec_sky(),
        c.wf(),
{
    Vec3 { x: Fx { v: HALF_RAW }, y: Fx { v: 45875 }, z: Fx { v: SCALE } }
}

/// The background gradient at its two boundaries: a ray pointing straight up
/// evaluates to the sky endpoint exactly, and one pointing straight down to
/// white exactly, whatever the ray's origin.
#[verifier::rlimit(60)]
pub proof fn lemma_background_boundary(orig: Vec3)
    ensures
        spec_background(Ray3 { orig, dir: Vec3 { x: Fx { v: 0 }, y: Fx { v: SCALE }, z: Fx { v: 0 } } })
            == spec_sky(),
        spec_background(
            Ray3 {
                orig,
                dir: Vec3 { x: Fx { v: 0 }, y: Fx { v: (-(SCALE as int)) as i64 }, z: Fx { v: 0 } },
            },
        ) == spec_white(),
{
    let s_int = SCALE as int;
    crate::fixed::lemma_mul_raw_zero(0);
    assert((s_int * s_int) / s_int == s_int) by (nonlinear_arith)
        requires
            s_int == 65536,
    ;
    // Straight up: the direction is exactly unit length, and every step of
    // the gradient computes exactly.
    let up = Vec3 { x: Fx { v: 0 }, y: Fx { v: SCALE }, z: Fx { v: 0 } };
    assert(crate::fixed::mul_raw(s_int, s_int) == s_int);
    assert(up.spec_length2().v == s_int);
    crate::fixed::lemma_isqrt_exists(s_int * s_int);
    assert(crate::fixed::is_isqrt(s_int * s_int, s_int)) by (nonlinear_arith)
        requires
            s_int == 65536,
    ;
    crate::fixed::lemma_isqrt_unique(s_int * s_int, s_int);
    assert(up.spec_length().v == s_int);
    let il_up = Fx { v: SCALE }.spec_div(up.spec_length());
    assert(il_up.v == s_int);
    let udir_up = spec_unit(up);
    crate::fixed::lemma_mul_raw_one(s_int);
    crate::fixed::lemma_mul_raw_zero(s_int);
    assert(udir_up == up);
    let t_up = Fx { v: HALF_RAW }.spec_mul(udir_up.y.spec_add(Fx { v: SCALE }));
    assert(udir_up.y.spec_add(Fx { v: SCALE }).v == 2 * s_int);
    assert(crate::fixed::mul_raw(HALF_RAW as int, 2 * s_int) == s_int) by (nonlinear_arith)
        requires
            s_int == 65536,
            HALF_RAW == 32768,
    ;
    assert(t_up.v == s_int);
    crate::vec3::lemma_scale_by_zero(spec_white(), Fx { v: SCALE }.spec_sub(t_up));
    crate::fixed::lemma_mul_raw_one(HALF_RAW as int);
    crate::fixed::lemma_mul_raw_one(45875);
    assert(spec_sky().spec_scale(t_up) == spec_sky());
    assert(spec_background(Ray3 { orig, dir: up }) == spec_sky());
    // Straight down: unit length again, and the blend parameter is zero.
    let down = Vec3 { x: Fx { v: 0 }, y: Fx { v: (-s_int) as i64 }, z: Fx { v: 0 } };
    assert(crate::fixed::mul_raw(-s_int, -s_int) == s_int);
    assert(down.spec_length2().v == s_int);
    assert(down.spec_length().v == s_int);
    let udir_down = spec_unit(down);
    crate::fixed::lemma_mul_raw_neg(s_int, s_int);
    assert(crate::fixed::mul_raw(-s_int, s_int) == -s_int) by {
        crate::fixed::lemma_mul_raw_neg(-s_int, s_int);
        assert(crate::fixed::mul_raw(-s_int, s_int) == crate::fixed::mul_raw(s_int, -s_int));
    }
    assert(udir_down.y.v == -s_int);
    let t_down = Fx { v: HALF_RAW }.spec_mul(udir_down.y.spec_add(Fx { v: SCALE }));
    assert(udir_down.y.spec_add(Fx { v: SCALE }).v == 0);
    crate::fixed::lemma_mul_raw_zero(HALF_RAW as int);
    assert(t_down.v == 0);
    crate::vec3::lemma_scale_by_zero(spec_sky(), t_down);
    crate::fixed::lemma_mul_raw_one(s_int);
    assert(Fx { v: SCALE }.spec_sub(t_down).v == s_int);
    assert(spec_white().spec_scale(Fx { v: SCALE }.spec_sub(t_down)) == spec_white());
    crate::vec3::lemma_add_zero(spec_white());
    assert(spec_background(Ray3 { orig, dir: down }) == spec_white());
}

/// The radiance one path gathers, and the generator state it leaves behind:
/// with bounces left, intersect the scene; on a hit, scatter and recurse
/// with one bounce fewer and the attenuation folded into `trans`, or stop
/// with zero on absorption; on a miss, stop with the background filtered
/// through `trans`; with no bounces left, stop with zero.
pub open spec fn spec_ray_color(
    r: Ray3,
    world: HittableObject,
    mats: Seq<crate::material::Material>,
    depth: int,
    s: u64,
    trans: ColorRGB,
) -> (ColorRGB, u64)
    decreases depth,
{
    if depth <= 0 {
        (spec_zero_color(), s)
    } else {
        match spec_hit(world, r, spec_base_cfg()) {
            Some(hit) => {
                let sc = crate::material::spec_scatter(mats[hit.mat as int], r, hit, s);
                match sc.0 {
                    Some(scattered) => spec_ray_color(
                        scattered.scattered,
                        world,
                        mats,
                        depth - 1,
                        sc.1,
                        scattered.attenuation.spec_mul_elements(trans),
                    ),
                    None => (spec_zero_color(), sc.1),
                }
            },
            None => (spec_background(r).spec_mul_elements(trans), s),
        }
    }
}

/// Trace one sample's path and return its radiance.
///
/// Starting from opaque-white transmissibility, the loop intersects the
/// scene, lets the struck material scatter the ray, and multiplies the
/// attenuation in, until the ray is absorbed (contributing zero), escapes
/// (contributing the background times the accumulated attenuation), or the
/// bounce budget runs out (contributing zero).  A non-positive budget yields
/// zero for every ray; a ray the scene never intersects yields exactly the
/// background gradient.  The result and the state left in `src` follow
/// `spec_ray_color` exactly.
pub fn ray_color(
    r: Ray3,
    world: &HittableObject,
    mats: &MaterialCollection,
    depth: i32,
    src: &mut RandomSource,
) -> (col: ColorRGB)
    requires
        r.wf(),
        world.wf(),
        mats.wf(),
        world.mats_below(mats.materials@.len() as int),
    ensures
        col == spec_ray_color(
            r,
            *world,
            mats.materials@,
            depth as int,
            old(src).state,
            spec_white(),
        ).0,
        final(src).state == spec_ray_color(
            r,
            *world,
            mats.materials@,
            depth as int,
            old(src).state,
            spec_white(),
        ).1,
        col.wf(),
        depth <= 0 ==> col == spec_zero_color(),
        depth >= 1 && spec_hit(*world, r, spec_base_cfg()) is None ==> col == spec_background(r),
{
    let mut cur_ray: Ray3 = r;
    let mut cur_depth: i32 = depth;
    let mut col: ColorRGB = Vec3::zeros();
    let mut transmissibility: ColorRGB = Vec3::ones();
    while cur_depth > 0
        invariant_except_break
            r.wf(),
            world.wf(),
            mats.wf(),
            world.mats_below(mats.materials@.len() as int),
            cur_ray.wf(),
            transmissibility.wf(),
            is_unit_color(transmissibility),
            col == spec_zero_color(),
            cur_depth <= depth,
            cur_depth == depth ==> cur_ray == r && transmissibility == spec_white(),
            cur_depth < depth ==> spec_hit(*world, r, spec_base_cfg()) is Some,
            spec_ray_color(r, *world, mats.materials@, depth as int, old(src).state, spec_white())
                == spec_ray_color(
                cur_ray,
                *world,
                mats.materials@,
                cur_depth as int,
                src.state,
                transmissibility,
            ),
        ensures
            col == spec_ray_color(
                r,
                *world,
                mats.materials@,
                depth as int,
                old(src).state,
                spec_white(),
            ).0,
            src.state == spec_ray_color(
                r,
                *world,
                mats.materials@,
                depth as int,
                old(src).state,
                spec_white(),
            ).1,
            col.wf(),
            depth <= 0 ==> col == spec_zero_color(),
            depth >= 1 && spec_hit(*world, r, spec_base_cfg()) is None ==> col
                == spec_background(r),
        decreases cur_depth,
    {
        let cfg: SamplingCfg = base_cfg();
        let rec: Option<crate::geometry::HitRecord> = world.hit(&cur_ray, cfg);
        proof {
            lemma_hit_props(*world, cur_ray, cfg, mats.materials@.len() as int);
        }
        match rec {
            Some(hit) => {
                proof {
                    assert(mats.materials@[hit.mat as int].valid());
                }
                let scattered_result = mats.materials[hit.mat].scatter(cur_ray, hit, src);
                match scattered_result {
                    Some(scattered) => {
                        proof {
                            lemma_unit_color_product(scattered.attenuation, transmissibility);
                        }
                        transmissibility = scattered.attenuation.mul_elements(transmissibility);
                        cur_ray = scattered.scattered;
                    },
                    None => {
                        transmissibility = Vec3::zeros();
                        break;
                    },
                }
            },
            None => {
                let udir: Vec3 = unit_vector(cur_ray.direction());
                let t: Fx = Fx { v: HALF_RAW }.mul(udir.y.add(Fx::one()));
                let v: Vec3 = lerp3(Vec3::ones(), sky_color(), t);
                proof {
                    if cur_depth == depth {
                        crate::vec3::lemma_mul_elements_one(v);
                    }
                }
                col = v.mul_elements(transmissibility);
                break;
            },
        }
        cur_depth = cur_depth - 1;
    }
    col
}

/// Radiance accumulated onto `acc` by `n` further anti-aliasing samples of
/// one pixel, and the generator state left behind.  Each sample jitters the
/// image-plane coordinates `(fi + u) / f_w` and `(fj + v) / f_h` with fresh
/// `[0, 1)` draws, aims a camera ray, and adds that path's radiance.
pub open spec fn spec_pixel_samples(
    cam: Camera,
    world: HittableObject,
    mats: Seq<crate::material::Material>,
    fi: Fx,
    fj: Fx,
    f_w: Fx,
    f_h: Fx,
    depth: int,
    n: int,
    st: u64,
    acc: ColorRGB,
) -> (ColorRGB, u64)
    decreases n,
{
    if n <= 0 {
        (acc, st)
    } else {
        let u = fi.spec_add(crate::rng::spec_unit_draw(st)).spec_div(f_w);
        let st1 = crate::rng::spec_advance(st);
        let v = fj.spec_add(crate::rng::spec_unit_draw(st1)).spec_div(f_h);
        let st2 = crate::rng::spec_advance(st1);
        let ray = crate::camera::spec_get_ray(cam, u, v, st2);
        let rc = spec_ray_color(ray.0, world, mats, depth, ray.1, spec_white());
        spec_pixel_samples(
            cam,
            world,
            mats,
            fi,
            fj,
            f_w,
            f_h,
            depth,
            n - 1,
            rc.1,
            acc.spec_add(rc.0),
        )
    }
}

/// The scanline buffer after rendering its first `i` columns, and the
/// generator state left behind: column `k` accumulates its samples from
/// black and stores the three tone-mapped bytes at offset `3 * k`.
pub open spec fn spec_render_columns(
    cam: Camera,
    world: HittableObject,
    mats: Seq<crate::material::Material>,
    samples: int,
    depth: int,
    fj: Fx,
    f_w: Fx,
    f_h: Fx,
    pixels0: Seq<i32>,
    i: int,
    st: u64,
) -> (Seq<i32>, u64)
    decreases i,
{
    if i <= 0 {
        (pixels0, st)
    } else {
        let prev = spec_render_columns(
            cam,
            world,
            mats,
            samples,
            depth,
            fj,
            f_w,
            f_h,
            pixels0,
            i - 1,
            st,
        );
        let fi = Fx::spec_raw((i - 1) * (SCALE as int));
        let px = spec_pixel_samples(
            cam,
            world,
            mats,
            fi,
            fj,
            f_w,
            f_h,
            depth,
            samples,
            prev.1,
            spec_zero_color(),
        );
        (
            prev.0.update(
                3 * (i - 1),
                crate::color::spec_tone_channel(px.0.x, samples) as i32,
            ).update(
                3 * (i - 1) + 1,
                crate::color::spec_tone_channel(px.0.y, samples) as i32,
            ).update(
                3 * (i - 1) + 2,
                crate::color::spec_tone_channel(px.0.z, samples) as i32,
            ),
            px.1,
        )
    }
}

/// Rendering configuration: image geometry and sampling budget.
#[derive(Clone, Copy, Debug, PartialEq, Eq, Structural)]
pub struct Cfg {
    pub aspect_ratio: Fx,
    pub image_width: i32,
    pub image_height: i32,
    pub samples_per_pixel: i32,
    pub max_depth: i32,
}

/// Why a rendering configuration was rejected.
#[derive(Clone, Copy, Debug, PartialEq, Eq, Structural)]
pub enum ConfigError {
    /// The image width or height is zero or negative.
    BadDimensions,
    /// The sample count per pixel is zero or negative.
    BadSampleCount,
}

impl Cfg {
    /// A configuration the render loop accepts: positive dimensions and at
    /// least one sample per pixel.
    pub open spec fn wf(self) -> bool {
        &&& 1 <= self.image_width
        &&& 1 <= self.image_height
        &&& 1 <= self.samples_per_pixel
    }

    /// Validate a configuration, rejecting empty images and empty sample
    /// budgets before any rendering starts.  Returns the configuration
    /// exactly when both dimensions and the sample count are positive;
    /// dimension problems are reported first.
    pub fn new(
        aspect_ratio: Fx,
        image_width: i32,
        image_height: i32,
        samples_per_pixel: i32,
        max_depth: i32,
    ) -> (r: Result<Cfg, ConfigError>)
        ensures
            r is Ok <==> (1 <= image_width && 1 <= image_height && 1 <= samples_per_pixel),
            r is Ok ==> r->Ok_0 == (Cfg {
                aspect_ratio,
                image_width,
                image_height,
                samples_per_pixel,
                max_depth,
            }) && r->Ok_0.wf(),
            r is Err && (image_width < 1 || image_height < 1) ==> r->Err_0
                == ConfigError::BadDimensions,
            r is Err && image_width >= 1 && image_height >= 1 ==> r->Err_0
                == ConfigError::BadSampleCount,
    {
        if image_width < 1 || image_height < 1 {
            Err(ConfigError::BadDimensions)
        } else if samples_per_pixel < 1 {
            Err(ConfigError::BadSampleCount)
        } else {
            Ok(Cfg { aspect_ratio, image_width, image_height, samples_per_pixel, max_depth })
        }
    }
}

/// Render scanline `y` into `pixels`, a buffer holding that scanline's
/// `3 * image_width` channel values.
///
/// For each pixel the loop accumulates `samples_per_pixel` jittered samples
/// through the camera and path integrator, then tone-maps the sum into three
/// bytes; afterwards every entry of the scanline holds a byte value.
#[verifier::rlimit(100)]
pub fn render_line(
    pixels: &mut Vec<i32>,
    cfg: &Cfg,
    cam: &Camera,
    hittable: &HittableObject,
    mats: &MaterialCollection,
    y: i32,
    src: &mut RandomSource,
)
    requires
        cfg.wf(),
        cam.wf(),
        hittable.wf(),
        mats.wf(),
        hittable.mats_below(mats.materials@.len() as int),
        0 <= y < cfg.image_height,
        old(pixels).len() == 3 * cfg.image_width,
    ensures
        final(pixels).len() == old(pixels).len(),
        ({
            let fj = Fx::spec_raw((cfg.image_height - y - 1) * (SCALE as int));
            let f_w = Fx::spec_raw((cfg.image_width - 1) * (SCALE as int));
            let f_h = Fx::spec_raw((cfg.image_height - 1) * (SCALE as int));
            let res = spec_render_columns(
                *cam,
                *hittable,
                mats.materials@,
                cfg.samples_per_pixel as int,
                cfg.max_depth as int,
                fj,
                f_w,
                f_h,
                old(pixels)@,
                cfg.image_width as int,
                old(src).state,
            );
            final(pixels)@ == res.0 && final(src).state == res.1
        }),
        forall|j: int| 0 <= j < final(pixels)@.len() ==> 0 <= #[trigger] final(pixels)@[j] <= 255,
{
    let fj: Fx = Fx::from_int(cfg.image_height - y - 1);
    let f_w: Fx = Fx::from_int(cfg.image_width - 1);
    let f_h: Fx = Fx::from_int(cfg.image_height - 1);
    let width: usize = cfg.image_width as usize;
    let mut i: usize = 0;
    while i < width
        invariant
            cfg.wf(),
            cam.wf(),
            hittable.wf(),
            mats.wf(),
            hittable.mats_below(mats.materials@.len() as int),
            width == cfg.image_width,
            i <= width,
            fj == Fx::spec_raw((cfg.image_height - y - 1) * (SCALE as int)),
            f_w == Fx::spec_raw((cfg.image_width - 1) * (SCALE as int)),
            f_h == Fx::spec_raw((cfg.image_height - 1) * (SCALE as int)),
            fj.wf(),
            f_w.wf(),
            f_h.wf(),
            pixels.len() == 3 * width,
            ({
                let res = spec_render_columns(
                    *cam,
                    *hittable,
                    mats.materials@,
                    cfg.samples_per_pixel as int,
                    cfg.max_depth as int,
                    fj,
                    f_w,
                    f_h,
                    old(pixels)@,
                    i as int,
                    old(src).state,
                );
                pixels@ == res.0 && src.state == res.1
            }),
            forall|j: int| 0 <= j < 3 * i ==> 0 <= #[trigger] pixels@[j] <= 255,
        decreases width - i,
    {
        let fi: Fx = Fx::from_int(i as i32);
        let mut pixel_color: ColorRGB = Vec3::zeros();
        let ghost st0: u64 = src.state;
        let mut s: i32 = 0;
        while s < cfg.samples_per_pixel
            invariant
                cfg.wf(),
                cam.wf(),
                hittable.wf(),
                mats.wf(),
                hittable.mats_below(mats.materials@.len() as int),
                fi.wf(),
                fj.wf(),
                f_w.wf(),
                f_h.wf(),
                pixel_color.wf(),
                0 <= s <= cfg.samples_per_pixel,
                spec_pixel_samples(
                    *cam,
                    *hittable,
                    mats.materials@,
                    fi,
                    fj,
                    f_w,
                    f_h,
                    cfg.max_depth as int,
                    cfg.samples_per_pixel as int,
                    st0,
                    spec_zero_color(),
                ) == spec_pixel_samples(
                    *cam,
                    *hittable,
                    mats.materials@,
                    fi,
                    fj,
                    f_w,
                    f_h,
                    cfg.max_depth as int,
                    cfg.samples_per_pixel - s,
                    src.state,
                    pixel_color,
                ),
            decreases cfg.samples_per_pixel - s,
        {
            let u: Fx = fi.add(random_fx_normalized(src)).div(f_w);
            let v: Fx = fj.add(random_fx_normalized(src)).div(f_h);
            let ray: Ray3 = cam.get_ray(u, v, src);
            pixel_color = pixel_color.add(ray_color(ray, hittable, mats, cfg.max_depth, src));
            s = s + 1;
        }
        proof {
            crate::color::lemma_tone_channel_bound(pixel_color.x, cfg.samples_per_pixel as int);
            crate::color::lemma_tone_channel_bound(pixel_color.y, cfg.samples_per_pixel as int);
            crate::color::lemma_tone_channel_bound(pixel_color.z, cfg.samples_per_pixel as int);
        }
        write_color_to_buf(pixels, i, pixel_color, cfg.samples_per_pixel);
        i = i + 1;
    }
}

} // verus!
