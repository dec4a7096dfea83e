//! Scattering behaviors: diffuse, reflective and refractive materials, and
//! the indexed registry that owns them.
//!
//! `scatter` consumes a hit record and the incoming ray and yields an
//! attenuation color and outgoing ray, or signals full absorption with
//! `None`.  Valid materials never amplify light: every attenuation channel
//! stays in `[0, 1]`.

use vstd::prelude::*;
use crate::fixed::{Fx, SCALE};
use crate::vec3::{Vec3, ColorRGB, Ray3, dot, unit_vector, refract, spec_near_zero};
use crate::geometry::{HitRecord, MaterialId};
use crate::rng::{RandomSource, random_fx_normalized, spec_advance, spec_unit_draw};
use crate::sampling::{spec_ball_draw, SAMPLE_ROUNDS};

verus! {

/// Every channel within `[0, 1]`: the range of physical reflectance.
pub open spec fn is_unit_color(c: Vec3) -> bool {
    0 <= c.x.v <= SCALE && 0 <= c.y.v <= SCALE && 0 <= c.z.v <= SCALE
}

/// Component-wise products of colors in `[0, 1]` stay in `[0, 1]`: filtering
/// light through any chain of valid attenuations never amplifies a channel.
pub proof fn lemma_unit_color_product(a: Vec3, b: Vec3)
    requires
        is_unit_color(a),
        is_unit_color(b),
    ensures
        is_unit_color(a.spec_mul_elements(b)),
{
    crate::fixed::lemma_mul_raw_unit(a.x.v as int, b.x.v as int);
    crate::fixed::lemma_mul_raw_unit(a.y.v as int, b.y.v as int);
    crate::fixed::lemma_mul_raw_unit(a.z.v as int, b.z.v as int);
}

/// The transmissibility left after filtering opaque white through a chain of
/// attenuations, one per bounce.
pub open spec fn spec_filter_chain(atts: Seq<Vec3>) -> Vec3
    decreases atts.len(),
{
    if atts.len() == 0 {
        Vec3 { x: Fx { v: SCALE }, y: Fx { v: SCALE }, z: Fx { v: SCALE } }
    } else {
        atts.last().spec_mul_elements(spec_filter_chain(atts.drop_last()))
    }
}

/// Energy is never amplified along a path: however many bounces a ray takes,
/// if every bounce attenuates by a color in `[0, 1]` per channel, the
/// accumulated transmissibility stays in `[0, 1]` per channel.
pub proof fn lemma_filter_chain_bounded(atts: Seq<Vec3>)
    requires
        forall|i: int| 0 <= i < atts.len() ==> is_unit_color(#[trigger] atts[i]),
    ensures
        is_unit_color(spec_filter_chain(atts)),
    decreases atts.len(),
{
    if atts.len() > 0 {
        lemma_filter_chain_bounded(atts.drop_last());
        lemma_unit_color_product(atts.last(), spec_filter_chain(atts.drop_last()));
    }
}

/// What a scattering material reports: the color filter it applies and the
/// ray that continues the path.
pub struct ScatterResult {
    pub attenuation: ColorRGB,
    pub scattered: Ray3,
}

/// A diffuse surface with base reflectance `albedo`.
#[derive(Clone, Copy, Debug, PartialEq, Eq, Structural)]
pub struct Lambertian {
    pub albedo: Vec3,
}

/// The scatter a diffuse surface produces from generator state `s`: aim at
/// `normal + random_unit_vector`, or the bare normal if that degenerates,
/// and pass the state the draw leaves behind.
pub open spec fn spec_lambert_scatter(l: Lambertian, rec: HitRecord, s: u64) -> (
    ScatterResult,
    u64,
) {
    let draw = spec_ball_draw(s, SAMPLE_ROUNDS as nat);
    let dir0 = rec.normal.spec_add(crate::vec3::spec_unit(draw.0));
    let dir = if spec_near_zero(dir0) {
        rec.normal
    } else {
        dir0
    };
    (
        ScatterResult { attenuation: l.albedo, scattered: Ray3 { orig: rec.p, dir } },
        draw.1,
    )
}

impl Lambertian {
    /// Scatter toward `normal + random_unit_vector`, falling back to the
    /// bare normal if that sum degenerates to (near) zero.
    fn scatter(&self, rec: HitRecord, src: &mut RandomSource) -> (res: ScatterResult)
        requires
            self.albedo.wf(),
            rec.wf(),
        ensures
            res == spec_lambert_scatter(*self, rec, old(src).state).0,
            final(src).state == spec_lambert_scatter(*self, rec, old(src).state).1,
            res.attenuation == self.albedo,
            res.scattered.orig == rec.p,
            res.scattered.dir.wf(),
            spec_near_zero(res.scattered.dir) ==> res.scattered.dir == rec.normal,
    {
        let mut scatter_direction: Vec3 = rec.normal.add(Vec3::random_unit_vector(src));
        if scatter_direction.near_zero() {
            scatter_direction = rec.normal;
        }
        ScatterResult { attenuation: self.albedo, scattered: Ray3::new(rec.p, scatter_direction) }
    }
}

/// A reflective surface with base reflectance `albedo` and roughness `fuzz`.
#[derive(Clone, Copy, Debug, PartialEq, Eq, Structural)]
pub struct Metal {
    pub albedo: Vec3,
    pub fuzz: Fx,
}

impl Metal {
    /// A metal with `f` clamped into the sensible roughness range `[0, 1]`.
    pub fn new(albedo: Vec3, f: Fx) -> (m: Metal)
        ensures
            m.albedo == albedo,
            m.fuzz.v == crate::fixed::clamp_raw(f.v as int, 0, SCALE as int),
            0 <= m.fuzz.v <= SCALE,
    {
        let fuzz: Fx = crate::fixed::clamp_fx(f, Fx::zero(), Fx::one());
        Metal { albedo, fuzz }
    }

    /// Reflect about the normal, perturbed by `fuzz` times a point in the
    /// unit ball; absorb rays that would leave below the surface.
    fn scatter(&self, r_in: Ray3, rec: HitRecord, src: &mut RandomSource)
        -> (res: Option<ScatterResult>)
        requires
            self.albedo.wf(),
            self.fuzz.wf(),
            r_in.wf(),
            rec.wf(),
        ensures
            res == spec_metal_scatter(*self, r_in, rec, old(src).state).0,
            final(src).state == spec_metal_scatter(*self, r_in, rec, old(src).state).1,
            res is Some ==> {
                let s = res->Some_0;
                &&& s.attenuation == self.albedo
                &&& s.scattered.orig == rec.p
                &&& s.scattered.dir.wf()
                &&& s.scattered.dir.spec_dot(rec.normal).v > 0
            },
    {
        let reflected: Vec3 = unit_vector(r_in.dir).reflect(rec.normal);
        let scattered: Ray3 = Ray3::new(
            rec.p,
            reflected.add(Vec3::random_in_unit_sphere(src).scale(self.fuzz)),
        );
        let d: Fx = dot(scattered.dir, rec.normal);
        if d.v > 0 {
            Some(ScatterResult { attenuation: self.albedo, scattered })
        } else {
            None
        }
    }
}

/// The scatter a metal produces from generator state `s`: the mirrored unit
/// direction perturbed by roughness, or absorption when that direction would
/// continue below the surface.
pub open spec fn spec_metal_scatter(m: Metal, r_in: Ray3, rec: HitRecord, s: u64) -> (
    Option<ScatterResult>,
    u64,
) {
    let draw = spec_ball_draw(s, SAMPLE_ROUNDS as nat);
    let reflected = crate::vec3::spec_reflect(crate::vec3::spec_unit(r_in.dir), rec.normal);
    let dir = reflected.spec_add(draw.0.spec_scale(m.fuzz));
    if dir.spec_dot(rec.normal).v > 0 {
        (
            Some(ScatterResult { attenuation: m.albedo, scattered: Ray3 { orig: rec.p, dir } }),
            draw.1,
        )
    } else {
        (None, draw.1)
    }
}

/// A clear refractive surface with index of refraction `ir`.
#[derive(Clone, Copy, Debug, PartialEq, Eq, Structural)]
pub struct Dielectric {
    pub ir: Fx,
}

/// Schlick's approximation of Fresnel reflectance:
/// `r0 + (1 - r0) * (1 - cosine)^5` with `r0 = ((1 - n) / (1 + n))^2`.
pub open spec fn spec_reflectance(cosine: Fx, ref_idx: Fx) -> Fx {
    let one = Fx { v: SCALE };
    let ratio = one.spec_sub(ref_idx).spec_div(one.spec_add(ref_idx));
    let r0 = ratio.spec_mul(ratio);
    let f = one.spec_sub(cosine);
    let f2 = f.spec_mul(f);
    let f4 = f2.spec_mul(f2);
    let f5 = f4.spec_mul(f);
    r0.spec_add(one.spec_sub(r0).spec_mul(f5))
}

/// The scatter a dielectric produces from generator state `s`: reflect under
/// total internal reflection or when the drawn value falls below the Schlick
/// reflectance, refract otherwise; always opaque white.
pub open spec fn spec_dielectric_scatter(d: Dielectric, r_in: Ray3, rec: HitRecord, s: u64) -> (
    ScatterResult,
    u64,
) {
    let one = Fx { v: SCALE };
    let ratio = if rec.front_face {
        one.spec_div(d.ir)
    } else {
        d.ir
    };
    let ud = crate::vec3::spec_unit(r_in.dir);
    let cos_theta = crate::vec3::spec_minf(ud.spec_neg().spec_dot(rec.normal), one);
    let sin_theta = one.spec_sub(cos_theta.spec_mul(cos_theta)).spec_sqrt();
    let cannot_refract = ratio.spec_mul(sin_theta).v > SCALE;
    let reflects = spec_reflectance(cos_theta, ratio).v > spec_unit_draw(s).v;
    let dir = if cannot_refract || reflects {
        crate::vec3::spec_reflect(ud, rec.normal)
    } else {
        crate::vec3::spec_refract(ud, rec.normal, ratio)
    };
    (
        ScatterResult {
            attenuation: Vec3 { x: one, y: one, z: one },
            scattered: Ray3 { orig: rec.p, dir },
        },
        spec_advance(s),
    )
}

impl Dielectric {
    /// A dielectric with the given index of refraction.
    pub fn new(ir: Fx) -> (d: Dielectric)
        ensures
            d.ir == ir,
    {
        Dielectric { ir }
    }

    /// Schlick reflectance at the given viewing angle.
    fn reflectance(cosine: Fx, ref_idx: Fx) -> (r: Fx)
        requires
            cosine.wf(),
            ref_idx.wf(),
        ensures
            r == spec_reflectance(cosine, ref_idx),
            r.wf(),
    {
        let one: Fx = Fx::one();
        let ratio: Fx = one.sub(ref_idx).div(one.add(ref_idx));
        let r0: Fx = ratio.mul(ratio);
        let f: Fx = one.sub(cosine);
        let f2: Fx = f.mul(f);
        let f4: Fx = f2.mul(f2);
        let f5: Fx = f4.mul(f);
        r0.add(one.sub(r0).mul(f5))
    }

    /// Always scatters: reflect when refraction is impossible (total internal
    /// reflection) or when a stochastic draw lands below the Schlick
    /// reflectance; otherwise refract.  Attenuation is opaque white.
    fn scatter(&self, r_in: Ray3, rec: HitRecord, src: &mut RandomSource)
        -> (res: Option<ScatterResult>)
        requires
            self.ir.wf(),
            r_in.wf(),
            rec.wf(),
        ensures
            res is Some,
            res->Some_0 == spec_dielectric_scatter(*self, r_in, rec, old(src).state).0,
            final(src).state == spec_dielectric_scatter(*self, r_in, rec, old(src).state).1,
            ({
                let s = res->Some_0;
                let ratio = if rec.front_face {
                    Fx { v: SCALE }.spec_div(self.ir)
                } else {
                    self.ir
                };
                let ud = crate::vec3::spec_unit(r_in.dir);
                &&& s.attenuation == (Vec3 {
                    x: Fx { v: SCALE },
                    y: Fx { v: SCALE },
                    z: Fx { v: SCALE },
                })
                &&& s.scattered.orig == rec.p
                &&& s.scattered.dir.wf()
                &&& (s.scattered.dir == crate::vec3::spec_reflect(ud, rec.normal)
                    || s.scattered.dir == crate::vec3::spec_refract(ud, rec.normal, ratio))
            }),
    {
        let attenuation: Vec3 = Vec3::ones();
        let refraction_ratio: Fx = if rec.front_face {
            Fx::one().div(self.ir)
        } else {
            self.ir
        };

        let unit_direction: Vec3 = unit_vector(r_in.dir);
        let cos_theta: Fx = crate::fixed::minf(dot(unit_direction.neg(), rec.normal), Fx::one());
        let sin_theta: Fx = Fx::one().sub(cos_theta.mul(cos_theta)).sqrt();
        let cannot_refract: bool = refraction_ratio.mul(sin_theta).v > SCALE;
        let draw: Fx = random_fx_normalized(src);
        let this_ray_reflects: bool = Dielectric::reflectance(cos_theta, refraction_ratio).v
            > draw.v;
        let direction: Vec3 = if cannot_refract || this_ray_reflects {
            unit_direction.reflect(rec.normal)
        } else {
            refract(unit_direction, rec.normal, refraction_ratio)
        };
        let scattered: Ray3 = Ray3::new(rec.p, direction);
        Some(ScatterResult { attenuation, scattered })
    }
}

/// The scatter any material produces from generator state `s`.
pub open spec fn spec_scatter(m: Material, r_in: Ray3, rec: HitRecord, s: u64) -> (
    Option<ScatterResult>,
    u64,
) {
    match m {
        Material::Lambertian(l) => {
            let r = spec_lambert_scatter(l, rec, s);
            (Some(r.0), r.1)
        },
        Material::Metal(mm) => spec_metal_scatter(mm, r_in, rec, s),
        Material::Dielectric(d) => {
            let r = spec_dielectric_scatter(d, r_in, rec, s);
            (Some(r.0), r.1)
        },
    }
}

/// The closed set of scattering behaviors.
#[derive(Clone, Copy, Debug, PartialEq, Eq, Structural)]
pub enum Material {
    Lambertian(Lambertian),
    Metal(Metal),
    Dielectric(Dielectric),
}

impl Material {
    /// A physically sensible material: reflectances within `[0, 1]`, fields
    /// within scalar range.
    pub open spec fn valid(self) -> bool {
        match self {
            Material::Lambertian(l) => is_unit_color(l.albedo),
            Material::Metal(m) => is_unit_color(m.albedo) && 0 <= m.fuzz.v <= SCALE,
            Material::Dielectric(d) => d.ir.wf(),
        }
    }

    /// A diffuse material; reflectance channels must lie in `[0, 1]`.
    pub fn mk_lambert(albedo: Vec3) -> (m: Material)
        requires
            is_unit_color(albedo),
        ensures
            m == Material::Lambertian(Lambertian { albedo }),
            m.valid(),
    {
        Material::Lambertian(Lambertian { albedo })
    }

    /// A reflective material; reflectance channels must lie in `[0, 1]`,
    /// roughness is clamped into `[0, 1]`.
    pub fn mk_metal(albedo: Vec3, fuzz: Fx) -> (m: Material)
        requires
            is_unit_color(albedo),
        ensures
            m is Metal,
            m->Metal_0.albedo == albedo,
            m->Metal_0.fuzz.v == crate::fixed::clamp_raw(fuzz.v as int, 0, SCALE as int),
            m.valid(),
    {
        Material::Metal(Metal::new(albedo, fuzz))
    }

    /// A refractive material with the given index of refraction.
    pub fn mk_dielectric(ir: Fx) -> (m: Material)
        requires
            ir.wf(),
        ensures
            m == Material::Dielectric(Dielectric { ir }),
            m.valid(),
    {
        Material::Dielectric(Dielectric::new(ir))
    }

    /// Scatter an incoming ray at a hit governed by this material.
    ///
    /// Diffuse and refractive materials always scatter; a metal absorbs rays
    /// that would continue below the surface.  Valid materials never amplify:
    /// the attenuation of every scattered ray has channels in `[0, 1]`, and
    /// the scattered ray starts at the hit point.
    pub fn scatter(&self, r_in: Ray3, rec: HitRecord, src: &mut RandomSource)
        -> (res: Option<ScatterResult>)
        requires
            self.valid(),
            r_in.wf(),
            rec.wf(),
        ensures
            res == spec_scatter(*self, r_in, rec, old(src).state).0,
            final(src).state == spec_scatter(*self, r_in, rec, old(src).state).1,
            res is Some ==> {
                let s = res->Some_0;
                &&& is_unit_color(s.attenuation)
                &&& s.attenuation.wf()
                &&& s.scattered.orig == rec.p
                &&& s.scattered.dir.wf()
            },
            self is Lambertian ==> res is Some,
            self is Dielectric ==> res is Some,
            self is Metal && res is Some
                ==> res->Some_0.scattered.dir.spec_dot(rec.normal).v > 0,
    {
        match self {
            Material::Lambertian(lamb) => Some(lamb.scatter(rec, src)),
            Material::Metal(metal) => metal.scatter(r_in, rec, src),
            Material::Dielectric(dielectric) => dielectric.scatter(r_in, rec, src),
        }
    }
}

/// An append-only registry of materials; geometry refers to a material by
/// its index, so shapes can share materials.
pub struct MaterialCollection {
    pub materials: Vec<Material>,
}

impl MaterialCollection {
    /// Every registered material is valid.
    pub open spec fn wf(self) -> bool {
        forall|i: int| 0 <= i < self.materials@.len() ==> (#[trigger] self.materials@[i]).valid()
    }

    /// An empty registry.
    pub fn new() -> (c: MaterialCollection)
        ensures
            c.materials@.len() == 0,
            c.wf(),
    {
        MaterialCollection { materials: Vec::new() }
    }

    /// Register a material and hand back its index.
    pub fn add(&mut self, mat: Material) -> (id: MaterialId)
        requires
            old(self).wf(),
            mat.valid(),
        ensures
            final(self).materials@ == old(self).materials@.push(mat),
            id == old(self).materials@.len(),
            final(self).wf(),
    {
        self.materials.push(mat);
        self.materials.len() - 1
    }

    /// Register a diffuse material with the given albedo.
    pub fn add_lambert(&mut self, albedo: Vec3) -> (id: MaterialId)
        requires
            old(self).wf(),
            is_unit_color(albedo),
        ensures
            final(self).materials@ == old(self).materials@.push(
                Material::Lambertian(Lambertian { albedo }),
            ),
            id == old(self).materials@.len(),
            final(self).wf(),
    {
        self.add(Material::mk_lambert(albedo))
    }

    /// Register a reflective material with the given albedo and roughness.
    pub fn add_metal(&mut self, albedo: Vec3, fuzz: Fx) -> (id: MaterialId)
        requires
            old(self).wf(),
            is_unit_color(albedo),
        ensures
            final(self).materials@.len() == old(self).materials@.len() + 1,
            id == old(self).materials@.len(),
            final(self).wf(),
    {
        self.add(Material::mk_metal(albedo, fuzz))
    }

    /// Register a refractive material with the given index of refraction.
    pub fn add_dielectric(&mut self, ir: Fx) -> (id: MaterialId)
        requires
            old(self).wf(),
            ir.wf(),
        ensures
            final(self).materials@ == old(self).materials@.push(
                Material::Dielectric(Dielectric { ir }),
            ),
            id == old(self).materials@.len(),
            final(self).wf(),
    {
        self.add(Material::mk_dielectric(ir))
    }
}

} // verus!
