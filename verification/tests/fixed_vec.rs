//! Tests of the fixed-point scalar kernel and the vector algebra.

use pathtrace::fixed::{Fx, CLIP, SCALE, clamp_fx, minf, maxf};
use pathtrace::vec3::{Vec3, Ray3, vec3i, dot, cross, unit_vector, lerp3, refract};

#[test]
fn from_int_uses_sixteen_fraction_bits() {
    assert_eq!(Fx::from_int(2).v, 2 * SCALE);
    assert_eq!(Fx::from_int(-3).v, -3 * SCALE);
    assert_eq!(Fx::one().v, SCALE);
    assert_eq!(Fx::zero().v, 0);
}

#[test]
fn mul_and_div_are_exact_on_small_integers() {
    let twelve = Fx::from_int(3).mul(Fx::from_int(4));
    assert_eq!(twelve, Fx::from_int(12));
    let neg = Fx::from_int(-3).mul(Fx::from_int(4));
    assert_eq!(neg, Fx::from_int(-12));
    // 10 / 4 = 2.5 exactly representable.
    let q = Fx::from_int(10).div(Fx::from_int(4));
    assert_eq!(q.v, 2 * SCALE + SCALE / 2);
}

#[test]
fn sqrt_is_exact_on_squares() {
    assert_eq!(Fx::from_int(4).sqrt(), Fx::from_int(2));
    assert_eq!(Fx::from_int(25).sqrt(), Fx::from_int(5));
    assert_eq!(Fx::zero().sqrt().v, 0);
    assert_eq!(Fx::from_int(-9).sqrt().v, 0);
}

#[test]
fn arithmetic_saturates_at_the_bound() {
    let top = Fx { v: CLIP };
    assert_eq!(top.add(top).v, CLIP);
    assert_eq!(top.neg().sub(top).v, -CLIP);
    assert_eq!(Fx::from_raw(CLIP).v, CLIP);
}

#[test]
fn division_by_zero_saturates_with_the_dividend_sign() {
    assert_eq!(Fx::from_int(1).div(Fx::zero()).v, CLIP);
    assert_eq!(Fx::from_int(-1).div(Fx::zero()).v, -CLIP);
}

#[test]
fn clamp_min_max_behave() {
    let lo = Fx::zero();
    let hi = Fx::one();
    assert_eq!(clamp_fx(Fx::from_int(5), lo, hi), hi);
    assert_eq!(clamp_fx(Fx::from_int(-5), lo, hi), lo);
    let mid = Fx { v: 1234 };
    assert_eq!(clamp_fx(mid, lo, hi), mid);
    assert_eq!(minf(lo, hi), lo);
    assert_eq!(maxf(lo, hi), hi);
}

#[test]
fn vector_componentwise_operations() {
    let a = vec3i(1, 2, 3);
    let b = vec3i(4, 5, 6);
    assert_eq!(a.add(b), vec3i(5, 7, 9));
    assert_eq!(b.sub(a), vec3i(3, 3, 3));
    assert_eq!(a.mul_elements(b), vec3i(4, 10, 18));
    assert_eq!(a.scale(Fx::from_int(2)), vec3i(2, 4, 6));
    assert_eq!(a.neg(), vec3i(-1, -2, -3));
    assert_eq!(dot(a, b), Fx::from_int(32));
}

#[test]
fn length_of_a_pythagorean_triple() {
    let v = vec3i(3, 4, 0);
    assert_eq!(v.length2(), Fx::from_int(25));
    assert_eq!(v.length(), Fx::from_int(5));
}

#[test]
fn unit_vector_normalizes_exactly_on_axis_vectors() {
    let v = vec3i(0, 2, 0);
    assert_eq!(unit_vector(v), vec3i(0, 1, 0));
}

#[test]
fn reflect_mirrors_about_the_normal() {
    let v = vec3i(1, -1, 0);
    let n = vec3i(0, 1, 0);
    assert_eq!(v.reflect(n), vec3i(1, 1, 0));
}

#[test]
fn cross_product_of_the_basis() {
    assert_eq!(cross(vec3i(1, 0, 0), vec3i(0, 1, 0)), vec3i(0, 0, 1));
    assert_eq!(cross(vec3i(0, 1, 0), vec3i(0, 0, 1)), vec3i(1, 0, 0));
}

#[test]
fn lerp_hits_both_endpoints() {
    let a = vec3i(1, 2, 3);
    let b = vec3i(7, 8, 9);
    assert_eq!(lerp3(a, b, Fx::zero()), a);
    assert_eq!(lerp3(a, b, Fx::one()), b);
}

#[test]
fn near_zero_detects_only_the_zero_vector() {
    assert!(Vec3::zeros().near_zero());
    let tiny = Vec3 { x: Fx { v: 1 }, y: Fx { v: 0 }, z: Fx { v: 0 } };
    assert!(!tiny.near_zero());
    assert!(!vec3i(1, 0, 0).near_zero());
}

#[test]
fn ray_evaluates_along_its_direction() {
    let r = Ray3::new(vec3i(0, 0, 0), vec3i(0, 0, 1));
    assert_eq!(r.at(Fx::from_int(3)), vec3i(0, 0, 3));
    assert_eq!(r.origin(), vec3i(0, 0, 0));
    assert_eq!(r.direction(), vec3i(0, 0, 1));
}

#[test]
fn refraction_with_unit_ratio_passes_straight_through() {
    let uv = vec3i(0, 0, -1);
    let n = vec3i(0, 0, 1);
    assert_eq!(refract(uv, n, Fx::one()), uv);
}
