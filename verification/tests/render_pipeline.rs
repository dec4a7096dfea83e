//! Tests of the path integrator, the tone mapper, the camera and the
//! per-scanline renderer.

use pathtrace::fixed::{Fx, SCALE};
use pathtrace::vec3::{Vec3, Ray3, vec3i};
use pathtrace::geometry::{Sphere, HittableObject};
use pathtrace::material::{Material, MaterialCollection};
use pathtrace::camera::{Camera, degrees_to_radians, PI_RAW};
use pathtrace::rng::RandomSource;
use pathtrace::tracer::{Cfg, ConfigError, ray_color, render_line};
use pathtrace::color::write_color_to_buf;

fn half() -> Fx {
    Fx { v: SCALE / 2 }
}

fn empty_world() -> (HittableObject, MaterialCollection) {
    (HittableObject::wrap(HittableObject::mk_list()), MaterialCollection::new())
}

fn one_sphere_world() -> (HittableObject, MaterialCollection) {
    let mut mats = MaterialCollection::new();
    let gray = Vec3 { x: half(), y: half(), z: half() };
    let id = mats.add(Material::mk_lambert(gray));
    let mut v = HittableObject::mk_list();
    v.push(HittableObject::Sphere(Sphere::new(vec3i(0, 0, -1), half(), id)));
    (HittableObject::wrap(v), mats)
}

#[test]
fn zero_depth_contributes_nothing() {
    let (world, mats) = one_sphere_world();
    let mut src = RandomSource::from_seed(1);
    let r = Ray3::new(vec3i(0, 0, 0), vec3i(0, 0, -1));
    let col = ray_color(r, &world, &mats, 0, &mut src);
    assert_eq!(col, Vec3::zeros());
    let r2 = Ray3::new(vec3i(5, 5, 5), vec3i(0, 1, 0));
    let col2 = ray_color(r2, &world, &mats, -3, &mut src);
    assert_eq!(col2, Vec3::zeros());
}

#[test]
fn straight_up_gives_the_sky_endpoint() {
    let (world, mats) = empty_world();
    let mut src = RandomSource::from_seed(1);
    let r = Ray3::new(vec3i(0, 0, 0), vec3i(0, 1, 0));
    let col = ray_color(r, &world, &mats, 5, &mut src);
    assert_eq!(col, Vec3 { x: Fx { v: 32768 }, y: Fx { v: 45875 }, z: Fx { v: SCALE } });
}

#[test]
fn straight_down_gives_white() {
    let (world, mats) = empty_world();
    let mut src = RandomSource::from_seed(1);
    let r = Ray3::new(vec3i(0, 0, 0), vec3i(0, -1, 0));
    let col = ray_color(r, &world, &mats, 5, &mut src);
    assert_eq!(col, Vec3::ones());
}

#[test]
fn tone_mapping_saturates_at_full_radiance() {
    // Accumulated radiance equal to the sample count averages to one and
    // encodes as 255 on every channel.
    let mut pixels: Vec<i32> = vec![7; 6];
    let n: i32 = 100;
    let c = Fx::from_int(n);
    write_color_to_buf(&mut pixels, 1, Vec3 { x: c, y: c, z: c }, n);
    assert_eq!(&pixels[3..6], &[255, 255, 255]);
    // The first pixel was left alone.
    assert_eq!(&pixels[0..3], &[7, 7, 7]);
}

#[test]
fn tone_mapping_keeps_zero_at_zero() {
    let mut pixels: Vec<i32> = vec![7; 3];
    write_color_to_buf(&mut pixels, 0, Vec3::zeros(), 10);
    assert_eq!(&pixels[..], &[0, 0, 0]);
}

#[test]
fn tone_mapping_gamma_corrects_quarter_radiance() {
    // An average of 0.25 square-roots to 0.5, which encodes as 128.
    let mut pixels: Vec<i32> = vec![0; 3];
    let c = Fx { v: SCALE / 4 };
    write_color_to_buf(&mut pixels, 0, Vec3 { x: c, y: c, z: c }, 1);
    assert_eq!(&pixels[..], &[128, 128, 128]);
}

#[test]
fn config_validation_rejects_bad_geometry_and_samples() {
    assert_eq!(
        Cfg::new(Fx::one(), 0, 10, 1, 5).unwrap_err(),
        ConfigError::BadDimensions,
    );
    assert_eq!(
        Cfg::new(Fx::one(), 10, -1, 1, 5).unwrap_err(),
        ConfigError::BadDimensions,
    );
    assert_eq!(
        Cfg::new(Fx::one(), 10, 10, 0, 5).unwrap_err(),
        ConfigError::BadSampleCount,
    );
    let cfg = Cfg::new(Fx::one(), 10, 10, 1, 5).unwrap();
    assert_eq!(cfg.image_width, 10);
    assert_eq!(cfg.image_height, 10);
}

#[test]
fn seeded_sources_replay_the_same_draws() {
    let mut a = RandomSource::from_seed(42);
    let mut b = RandomSource::from_seed(42);
    for _ in 0..16 {
        assert_eq!(a.next_u64(), b.next_u64());
    }
    let mut c = RandomSource::from_seed(43);
    let first_a = RandomSource::from_seed(42).next_u64();
    assert_ne!(first_a, c.next_u64());
}

#[test]
fn normalized_draws_stay_in_the_unit_interval() {
    let mut src = RandomSource::from_seed(9);
    for _ in 0..100 {
        let x = pathtrace::rng::random_fx_normalized(&mut src);
        assert!(0 <= x.v && x.v < SCALE);
    }
}

#[test]
fn unit_sphere_samples_stay_inside() {
    let mut src = RandomSource::from_seed(5);
    for _ in 0..50 {
        let v = Vec3::random_in_unit_sphere(&mut src);
        assert!(v.length2().v < SCALE);
    }
    for _ in 0..50 {
        let d = Vec3::random_in_unit_disk(&mut src);
        assert!(d.length2().v < SCALE);
        assert_eq!(d.z.v, 0);
    }
}

#[test]
fn entropy_seeding_yields_a_working_source() {
    let mut src = RandomSource::from_entropy();
    let x = pathtrace::rng::random_fx_normalized(&mut src);
    assert!(0 <= x.v && x.v < SCALE);
}

#[test]
fn degrees_convert_through_pi() {
    assert_eq!(degrees_to_radians(Fx::from_int(180)).v, PI_RAW);
    assert_eq!(degrees_to_radians(Fx::zero()).v, 0);
}

#[test]
fn default_camera_uses_a_point_lens() {
    let cam = Camera::new_default();
    assert_eq!(cam, Camera::default());
    assert_eq!(cam.lens_radius.v, 0);
    assert_eq!(cam.origin, Vec3::zeros());
}

#[test]
fn ray_color_replays_with_the_seed() {
    let (world, mats) = one_sphere_world();
    let r = Ray3::new(vec3i(0, 0, 0), vec3i(0, 0, -1));
    let mut src_a = RandomSource::from_seed(77);
    let mut src_b = RandomSource::from_seed(77);
    let a = ray_color(r, &world, &mats, 8, &mut src_a);
    let b = ray_color(r, &world, &mats, 8, &mut src_b);
    assert_eq!(a, b);
    assert_eq!(src_a.state, src_b.state);
}

#[test]
fn render_line_replays_with_the_seed() {
    let (world, mats) = one_sphere_world();
    let cfg = Cfg::new(Fx::one(), 6, 6, 2, 4).unwrap();
    let cam = Camera::new_default();
    let mut line_a: Vec<i32> = vec![0; 18];
    let mut line_b: Vec<i32> = vec![0; 18];
    render_line(&mut line_a, &cfg, &cam, &world, &mats, 3, &mut RandomSource::from_seed(5));
    render_line(&mut line_b, &cfg, &cam, &world, &mats, 3, &mut RandomSource::from_seed(5));
    assert_eq!(line_a, line_b);
}

#[test]
fn centered_sphere_renders_darker_than_the_sky_corner() {
    // One gray diffuse sphere in front of a 90-degree camera; one sample per
    // pixel and a single bounce.  The center pixel's path hits the sphere,
    // scatters, and runs out of depth (black); the corner escapes to the
    // bright background.
    let (world, mats) = one_sphere_world();
    let cfg = Cfg::new(Fx::one(), 9, 9, 1, 1).unwrap();
    let cam = Camera::new(
        vec3i(0, 0, 0),
        vec3i(0, 0, -1),
        vec3i(0, 1, 0),
        Fx::one(),
        Fx::one(),
        Fx::zero(),
        Fx::one(),
    );

    let mut center_row: Vec<i32> = vec![0; 27];
    let mut src = RandomSource::from_seed(2024);
    render_line(&mut center_row, &cfg, &cam, &world, &mats, 4, &mut src);
    let center_pixel = &center_row[12..15];

    let mut top_row: Vec<i32> = vec![0; 27];
    let mut src2 = RandomSource::from_seed(2025);
    render_line(&mut top_row, &cfg, &cam, &world, &mats, 0, &mut src2);
    let corner_pixel = &top_row[0..3];

    // Every channel is a byte.
    for &b in center_row.iter().chain(top_row.iter()) {
        assert!((0..=255).contains(&b));
    }
    // The corner shows the gradient: bright in every channel; the center
    // path was cut off after its single bounce.
    assert!(corner_pixel.iter().all(|&b| b > 150));
    assert!(center_pixel.iter().zip(corner_pixel).all(|(&c, &k)| c + 100 < k));
}
