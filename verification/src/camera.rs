//! The camera: an orthonormal basis and viewport built once from the eye
//! configuration, mapping image-plane coordinates to world-space rays, with a
//! thin-lens aperture for depth of field.

use vstd::prelude::*;
use crate::fixed::Fx;
use crate::vec3::{Vec3, Ray3, vec3, unit_vector, cross, spec_unit, spec_cross};
use crate::rng::RandomSource;

verus! {

/// Fixed-point approximation of pi (raw steps).
pub const PI_RAW: i64 = 205887;

/// Convert an angle in degrees to radians: `d * pi / 180`.
pub fn degrees_to_radians(degrees: Fx) -> (r: Fx)
    requires
        degrees.wf(),
    ensures
        r == degrees.spec_mul(Fx { v: PI_RAW }).spec_div(
            Fx { v: (180 * crate::fixed::SCALE as int) as i64 },
        ),
        r.wf(),
{
    degrees.mul(Fx { v: PI_RAW }).div(Fx::from_int(180))
}

/// Immutable camera configuration, read-only while rendering.
#[derive(Clone, Copy, Debug, PartialEq, Eq, Structural)]
pub struct Camera {
    pub origin: Vec3,
    pub horizontal: Vec3,
    pub vertical: Vec3,
    pub lower_left_corner: Vec3,
    pub u: Vec3,
    pub v: Vec3,
    pub w: Vec3,
    pub lens_radius: Fx,
}

impl Camera {
    /// All fields within scalar range.
    pub open spec fn wf(self) -> bool {
        &&& self.origin.wf()
        &&& self.horizontal.wf()
        &&& self.vertical.wf()
        &&& self.lower_left_corner.wf()
        &&& self.u.wf()
        &&& self.v.wf()
        &&& self.w.wf()
        &&& self.lens_radius.wf()
    }
}

/// The camera the full constructor builds: orthonormal basis
/// `w = unit(lookfrom - lookat)`, `u = unit(vup x w)`, `v = w x u`, and a
/// viewport of height `2 * half_h` and width `aspect_ratio` times that,
/// scaled by the focus distance; the lens disk has radius `aperture / 2`.
pub open spec fn spec_camera(
    lookfrom: Vec3,
    lookat: Vec3,
    vup: Vec3,
    half_h: Fx,
    aspect_ratio: Fx,
    aperture: Fx,
    focus_dist: Fx,
) -> Camera {
    let two = Fx { v: (2 * crate::fixed::SCALE as int) as i64 };
    let viewport_height = two.spec_mul(half_h);
    let viewport_width = aspect_ratio.spec_mul(viewport_height);
    let w = spec_unit(lookfrom.spec_sub(lookat));
    let u = spec_unit(spec_cross(vup, w));
    let v = spec_cross(w, u);
    let origin = lookfrom;
    let horizontal = u.spec_scale(viewport_width).spec_scale(focus_dist);
    let vertical = v.spec_scale(viewport_height).spec_scale(focus_dist);
    let lower_left_corner = origin.spec_sub(horizontal.spec_div_scalar(two)).spec_sub(
        vertical.spec_div_scalar(two),
    ).spec_sub(w.spec_scale(focus_dist));
    Camera {
        origin,
        horizontal,
        vertical,
        lower_left_corner,
        u,
        v,
        w,
        lens_radius: aperture.spec_div(two),
    }
}

/// The ray aimed at image-plane point `(s, t)` from generator state `st`,
/// and the state the lens draw leaves: the origin shifts by a random lens
/// point scaled by the lens radius, and the direction aims at the viewport
/// point for `(s, t)` from that shifted origin.
pub open spec fn spec_get_ray(cam: Camera, s: Fx, t: Fx, st: u64) -> (Ray3, u64) {
    let draw = crate::sampling::spec_disk_draw(st, crate::sampling::SAMPLE_ROUNDS as nat);
    let rd = draw.0.spec_scale(cam.lens_radius);
    let offset = cam.u.spec_scale(rd.x).spec_add(cam.v.spec_scale(rd.y));
    (
        Ray3 {
            orig: cam.origin.spec_add(offset),
            dir: cam.lower_left_corner.spec_add(cam.horizontal.spec_scale(s)).spec_add(
                cam.vertical.spec_scale(t),
            ).spec_sub(cam.origin).spec_sub(offset),
        },
        draw.1,
    )
}

/// The ray aimed at image-plane point `(s, t)` when the lens is a point
/// (aperture zero): no random offset enters.
pub open spec fn spec_get_ray_centered(cam: Camera, s: Fx, t: Fx) -> Ray3 {
    Ray3 {
        orig: cam.origin,
        dir: cam.lower_left_corner.spec_add(cam.horizontal.spec_scale(s)).spec_add(
            cam.vertical.spec_scale(t),
        ).spec_sub(cam.origin),
    }
}

impl Camera {
    /// A default camera: eye at the origin looking down the negative z axis,
    /// a viewport two units tall with a 16:9 aspect ratio at focal length
    /// one, and no aperture.
    pub fn new_default() -> (cam: Camera)
        ensures
            cam.wf(),
            cam.origin == (Vec3 { x: Fx { v: 0 }, y: Fx { v: 0 }, z: Fx { v: 0 } }),
            cam.lens_radius.v == 0,
    {
        let aspect_ratio: Fx = Fx::from_int(16).div(Fx::from_int(9));
        let viewport_height: Fx = Fx::from_int(2);
        let viewport_width: Fx = aspect_ratio.mul(viewport_height);
        let focal_length: Fx = Fx::one();

        let origin: Vec3 = Vec3::zeros();
        let horizontal: Vec3 = vec3(viewport_width, Fx::zero(), Fx::zero());
        let vertical: Vec3 = vec3(Fx::zero(), viewport_height, Fx::zero());
        let two: Fx = Fx::from_int(2);
        let lower_left_corner: Vec3 = origin.sub(horizontal.div_scalar(two)).sub(
            vertical.div_scalar(two),
        ).sub(vec3(Fx::zero(), Fx::zero(), focal_length));

        Camera {
            origin,
            horizontal,
            vertical,
            lower_left_corner,
            u: vec3(Fx::one(), Fx::zero(), Fx::zero()),
            v: vec3(Fx::zero(), Fx::one(), Fx::zero()),
            w: vec3(Fx::zero(), Fx::zero(), Fx::one()),
            lens_radius: Fx::zero(),
        }
    }

    /// Build a camera from eye position, target, up direction, the tangent
    /// of half the vertical field of view (`half_h`), aspect ratio, aperture
    /// and focus distance.  The trigonometric conversion from a field of
    /// view in degrees to `half_h` is the caller's, since it has no exact
    /// fixed-point form.
    pub fn new(
        lookfrom: Vec3,
        lookat: Vec3,
        vup: Vec3,
        half_h: Fx,
        aspect_ratio: Fx,
        aperture: Fx,
        focus_dist: Fx,
    ) -> (cam: Camera)
        requires
            lookfrom.wf(),
            lookat.wf(),
            vup.wf(),
            half_h.wf(),
            aspect_ratio.wf(),
            aperture.wf(),
            focus_dist.wf(),
        ensures
            cam == spec_camera(lookfrom, lookat, vup, half_h, aspect_ratio, aperture, focus_dist),
            cam.wf(),
    {
        let two: Fx = Fx::from_int(2);
        let viewport_height: Fx = two.mul(half_h);
        let viewport_width: Fx = aspect_ratio.mul(viewport_height);
        let w: Vec3 = unit_vector(lookfrom.sub(lookat));
        let u: Vec3 = unit_vector(cross(vup, w));
        let v: Vec3 = cross(w, u);
        let origin: Vec3 = lookfrom;
        let horizontal: Vec3 = u.scale(viewport_width).scale(focus_dist);
        let vertical: Vec3 = v.scale(viewport_height).scale(focus_dist);
        let lower_left_corner: Vec3 = origin.sub(horizontal.div_scalar(two)).sub(
            vertical.div_scalar(two),
        ).sub(w.scale(focus_dist));
        Camera {
            origin,
            horizontal,
            vertical,
            lower_left_corner,
            u,
            v,
            w,
            lens_radius: aperture.div(two),
        }
    }

    /// The ray for image-plane coordinates `(s, t)` in `[0, 1]^2`, its origin
    /// offset by a random point on the lens disk for depth of field.  With a
    /// zero aperture the ray is the exact centered ray.
    pub fn get_ray(&self, s: Fx, t: Fx, src: &mut RandomSource) -> (r: Ray3)
        requires
            self.wf(),
            s.wf(),
            t.wf(),
        ensures
            r == spec_get_ray(*self, s, t, old(src).state).0,
            final(src).state == spec_get_ray(*self, s, t, old(src).state).1,
            r.wf(),
            self.lens_radius.v == 0 ==> r == spec_get_ray_centered(*self, s, t),
    {
        let disk: Vec3 = Vec3::random_in_unit_disk(src);
        let rd: Vec3 = disk.scale(self.lens_radius);
        let offset: Vec3 = self.u.scale(rd.x).add(self.v.scale(rd.y));
        let aim: Vec3 = self.lower_left_corner.add(self.horizontal.scale(s)).add(
            self.vertical.scale(t),
        ).sub(self.origin);
        let raydir: Vec3 = aim.sub(offset);
        proof {
            if self.lens_radius.v == 0 {
                crate::vec3::lemma_scale_by_zero(disk, self.lens_radius);
                crate::vec3::lemma_scale_by_zero(self.u, rd.x);
                crate::vec3::lemma_scale_by_zero(self.v, rd.y);
                assert(offset == (Vec3 { x: Fx { v: 0 }, y: Fx { v: 0 }, z: Fx { v: 0 } }));
                crate::vec3::lemma_add_zero(self.origin);
                crate::vec3::lemma_sub_zero(aim);
            }
        }
        Ray3::new(self.origin.add(offset), raydir)
    }
}

impl Default for Camera {
    /// The default camera of `new_default`.
    fn default() -> (cam: Camera)
        ensures
            cam.wf(),
            cam.lens_radius.v == 0,
    {
        Camera::new_default()
    }
}

} // verus!
