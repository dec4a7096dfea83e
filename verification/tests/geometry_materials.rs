//! Tests of the intersection protocol and the material model.

use pathtrace::fixed::{Fx, CLIP, SCALE};
use pathtrace::vec3::{Vec3, Ray3, vec3i, dot};
use pathtrace::geometry::{SamplingCfg, Sphere, HittableObject, HitRecord, hit_sphere, hit_sphere_OLD};
use pathtrace::material::{Material, MaterialCollection};
use pathtrace::rng::RandomSource;

fn wide_open() -> SamplingCfg {
    SamplingCfg::new(Fx { v: 65 }, Fx { v: CLIP })
}

fn half() -> Fx {
    Fx { v: SCALE / 2 }
}

#[test]
fn sphere_hit_point_lies_on_the_surface() {
    // Unit sphere at the origin, ray approaching along +z from far behind.
    let s = Sphere::new(vec3i(0, 0, 0), Fx::one(), 0);
    let r = Ray3::new(vec3i(0, 0, -4), vec3i(0, 0, 1));
    let rec = s.hit(&r, wide_open()).expect("the ray points at the sphere");
    assert_eq!(rec.t, Fx::from_int(3));
    let dist = rec.p.sub(s.center).length();
    // Within a couple of raw steps of the radius (here it is exact).
    assert!((dist.v - s.radius.v).abs() <= 2);
}

#[test]
fn sphere_hit_point_on_surface_with_fractional_radius() {
    let s = Sphere::new(vec3i(0, 0, -1), half(), 0);
    let r = Ray3::new(vec3i(0, 0, 0), vec3i(0, 0, -1));
    let rec = s.hit(&r, wide_open()).expect("hit");
    assert_eq!(rec.t.v, SCALE / 2);
    let dist = rec.p.sub(s.center).length();
    assert!((dist.v - s.radius.v).abs() <= 2);
}

#[test]
fn front_face_normal_opposes_the_ray() {
    let s = Sphere::new(vec3i(0, 0, 0), Fx::one(), 0);
    let r = Ray3::new(vec3i(0, 0, -4), vec3i(0, 0, 1));
    let rec = s.hit(&r, wide_open()).expect("hit");
    assert!(rec.front_face);
    assert_eq!(rec.normal, vec3i(0, 0, -1));
    assert!(dot(r.dir, rec.normal).v <= 0);
}

#[test]
fn back_face_normal_opposes_the_ray_too() {
    // Ray starting inside the sphere strikes the back face.
    let s = Sphere::new(vec3i(0, 0, 0), Fx::one(), 0);
    let r = Ray3::new(vec3i(0, 0, 0), vec3i(0, 0, 1));
    let rec = s.hit(&r, wide_open()).expect("hit from inside");
    assert!(!rec.front_face);
    assert_eq!(rec.t, Fx::one());
    assert!(dot(r.dir, rec.normal).v <= 0);
}

#[test]
fn list_returns_nearest_hit_regardless_of_order() {
    let near = Sphere::new(vec3i(0, 0, -2), half(), 0);
    let far = Sphere::new(vec3i(0, 0, -4), half(), 1);
    let r = Ray3::new(vec3i(0, 0, 0), vec3i(0, 0, -1));

    let mut v1 = HittableObject::mk_list();
    v1.push(HittableObject::Sphere(near));
    v1.push(HittableObject::Sphere(far));
    let w1 = HittableObject::wrap(v1);

    let mut v2 = HittableObject::mk_list();
    v2.push(HittableObject::Sphere(far));
    v2.push(HittableObject::Sphere(near));
    let w2 = HittableObject::wrap(v2);

    let h1 = w1.hit(&r, wide_open()).expect("hit");
    let h2 = w2.hit(&r, wide_open()).expect("hit");
    assert_eq!(h1.t.v, SCALE + SCALE / 2);
    assert_eq!(h1, h2);
    assert_eq!(h1.mat, 0);
}

#[test]
fn empty_list_hits_nothing() {
    let w = HittableObject::wrap(HittableObject::mk_list());
    let r = Ray3::new(vec3i(0, 0, 0), vec3i(0, 0, -1));
    assert!(w.hit(&r, wide_open()).is_none());
}

#[test]
fn hit_out_of_range_is_rejected() {
    let s = Sphere::new(vec3i(0, 0, -10), Fx::one(), 0);
    let r = Ray3::new(vec3i(0, 0, 0), vec3i(0, 0, -1));
    let narrow = SamplingCfg::new(Fx { v: 65 }, Fx::from_int(2));
    assert!(s.hit(&r, narrow).is_none());
}

#[test]
fn hit_sphere_reports_minus_one_on_a_miss() {
    let center = vec3i(0, 0, 0);
    let r = Ray3::new(vec3i(0, 0, -4), vec3i(0, 1, 0));
    let t = hit_sphere(center, Fx::one(), &r);
    assert_eq!(t, Fx::from_int(-1));
}

#[test]
fn hit_sphere_reports_the_near_root() {
    let center = vec3i(0, 0, 0);
    let r = Ray3::new(vec3i(0, 0, -4), vec3i(0, 0, 1));
    let t = hit_sphere(center, Fx::one(), &r);
    assert_eq!(t, Fx::from_int(3));
}

#[test]
fn both_quadratic_solvers_agree() {
    let center = vec3i(0, 0, 0);
    let hit_ray = Ray3::new(vec3i(0, 0, -4), vec3i(0, 0, 1));
    assert_eq!(hit_sphere_OLD(center, Fx::one(), &hit_ray), Fx::from_int(3));
    let miss_ray = Ray3::new(vec3i(0, 0, -4), vec3i(0, 1, 0));
    assert_eq!(hit_sphere_OLD(center, Fx::one(), &miss_ray), Fx::from_int(-1));
}

#[test]
fn lambertian_always_scatters_with_its_albedo() {
    let gray = Vec3 { x: half(), y: half(), z: half() };
    let m = Material::mk_lambert(gray);
    let s = Sphere::new(vec3i(0, 0, -1), half(), 0);
    let r = Ray3::new(vec3i(0, 0, 0), vec3i(0, 0, -1));
    let rec = s.hit(&r, wide_open()).expect("hit");
    let mut src = RandomSource::from_seed(7);
    let sc = m.scatter(r, rec, &mut src).expect("lambertian always scatters");
    assert_eq!(sc.attenuation, gray);
    assert_eq!(sc.scattered.orig, rec.p);
    for c in [sc.attenuation.x, sc.attenuation.y, sc.attenuation.z] {
        assert!(0 <= c.v && c.v <= SCALE);
    }
}

#[test]
fn polished_metal_reflects_exactly() {
    let albedo = Vec3 { x: Fx { v: 52428 }, y: Fx { v: 39321 }, z: Fx { v: 13107 } };
    let m = Material::mk_metal(albedo, Fx::zero());
    let s = Sphere::new(vec3i(0, 0, 0), Fx::one(), 0);
    let r = Ray3::new(vec3i(0, 0, -4), vec3i(0, 0, 1));
    let rec = s.hit(&r, wide_open()).expect("hit");
    let mut src = RandomSource::from_seed(7);
    let sc = m.scatter(r, rec, &mut src).expect("head-on reflection leaves the surface");
    assert_eq!(sc.attenuation, albedo);
    assert_eq!(sc.scattered.dir, vec3i(0, 0, -1));
    assert!(dot(sc.scattered.dir, rec.normal).v > 0);
}

#[test]
fn metal_absorbs_rays_leaving_below_the_surface() {
    let albedo = Vec3 { x: half(), y: half(), z: half() };
    let m = Material::mk_metal(albedo, Fx::zero());
    // A record whose normal agrees with the incoming direction: the
    // reflection points into the surface and is absorbed.
    let rec = HitRecord {
        p: vec3i(0, 0, 0),
        normal: vec3i(0, 0, 1),
        mat: 0,
        t: Fx::one(),
        front_face: true,
    };
    let r = Ray3::new(vec3i(0, 0, -1), vec3i(0, 0, 1));
    let mut src = RandomSource::from_seed(7);
    assert!(m.scatter(r, rec, &mut src).is_none());
}

#[test]
fn metal_fuzz_is_clamped_into_the_unit_range() {
    let albedo = Vec3 { x: half(), y: half(), z: half() };
    match Material::mk_metal(albedo, Fx::from_int(3)) {
        Material::Metal(metal) => assert_eq!(metal.fuzz, Fx::one()),
        _ => panic!("constructor changed variant"),
    }
    match Material::mk_metal(albedo, Fx::from_int(-3)) {
        Material::Metal(metal) => assert_eq!(metal.fuzz, Fx::zero()),
        _ => panic!("constructor changed variant"),
    }
}

#[test]
fn dielectric_always_scatters_white() {
    let m = Material::mk_dielectric(Fx { v: 98304 });
    let s = Sphere::new(vec3i(0, 0, -1), half(), 0);
    let r = Ray3::new(vec3i(0, 0, 0), vec3i(0, 0, -1));
    let rec = s.hit(&r, wide_open()).expect("hit");
    let mut src = RandomSource::from_seed(11);
    let sc = m.scatter(r, rec, &mut src).expect("dielectrics always scatter");
    assert_eq!(sc.attenuation, Vec3::ones());
    assert_eq!(sc.scattered.orig, rec.p);
}

#[test]
fn material_collection_hands_out_consecutive_indices() {
    let gray = Vec3 { x: half(), y: half(), z: half() };
    let mut mats = MaterialCollection::new();
    let a = mats.add(Material::mk_lambert(gray));
    let b = mats.add(Material::mk_dielectric(Fx { v: 98304 }));
    assert_eq!(a, 0);
    assert_eq!(b, 1);
    assert_eq!(mats.materials.len(), 2);
}
