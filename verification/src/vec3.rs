//! Three-component vector algebra and the parametric ray type.
//!
//! Every executable operation mirrors a spec function exactly, so higher
//! layers can reason about vector formulas as values.

use vstd::prelude::*;
use crate::fixed::Fx;
use crate::fixed::iabs;

verus! {

/// An ordered triple of fixed-point components.
#[derive(Clone, Copy, Debug, PartialEq, Eq, Structural)]
pub struct Vec3 {
    pub x: Fx,
    pub y: Fx,
    pub z: Fx,
}

/// Colors are vectors with (red, green, blue) in the three slots.
pub type ColorRGB = Vec3;

impl Vec3 {
    /// All components within the scalar saturation range.
    pub open spec fn wf(self) -> bool {
        self.x.wf() && self.y.wf() && self.z.wf()
    }

    /// Component-wise sum.
    pub open spec fn spec_add(self, o: Vec3) -> Vec3 {
        Vec3 { x: self.x.spec_add(o.x), y: self.y.spec_add(o.y), z: self.z.spec_add(o.z) }
    }

    /// Component-wise difference.
    pub open spec fn spec_sub(self, o: Vec3) -> Vec3 {
        Vec3 { x: self.x.spec_sub(o.x), y: self.y.spec_sub(o.y), z: self.z.spec_sub(o.z) }
    }

    /// Scaling by a scalar.
    pub open spec fn spec_scale(self, t: Fx) -> Vec3 {
        Vec3 { x: self.x.spec_mul(t), y: self.y.spec_mul(t), z: self.z.spec_mul(t) }
    }

    /// Division by a scalar.
    pub open spec fn spec_div_scalar(self, t: Fx) -> Vec3 {
        Vec3 { x: self.x.spec_div(t), y: self.y.spec_div(t), z: self.z.spec_div(t) }
    }

    /// Component-wise product.
    pub open spec fn spec_mul_elements(self, o: Vec3) -> Vec3 {
        Vec3 { x: self.x.spec_mul(o.x), y: self.y.spec_mul(o.y), z: self.z.spec_mul(o.z) }
    }

    /// Component-wise negation.
    pub open spec fn spec_neg(self) -> Vec3 {
        Vec3 { x: self.x.spec_neg(), y: self.y.spec_neg(), z: self.z.spec_neg() }
    }

    /// Dot product, summed left to right.
    pub open spec fn spec_dot(self, o: Vec3) -> Fx {
        self.x.spec_mul(o.x).spec_add(self.y.spec_mul(o.y)).spec_add(self.z.spec_mul(o.z))
    }

    /// Squared length.
    pub open spec fn spec_length2(self) -> Fx {
        self.spec_dot(self)
    }

    /// Length.
    pub open spec fn spec_length(self) -> Fx {
        self.spec_length2().spec_sqrt()
    }
}

/// The vector (x, y, z).
pub fn vec3(x: Fx, y: Fx, z: Fx) -> (r: Vec3)
    ensures
        r == (Vec3 { x, y, z }),
{
    Vec3 { x, y, z }
}

/// The vector whose components are the whole numbers (x, y, z).
pub fn vec3i(x: i32, y: i32, z: i32) -> (r: Vec3)
    ensures
        r == (Vec3 {
            x: Fx::spec_raw(x as int * crate::fixed::SCALE as int),
            y: Fx::spec_raw(y as int * crate::fixed::SCALE as int),
            z: Fx::spec_raw(z as int * crate::fixed::SCALE as int),
        }),
        r.wf(),
{
    Vec3 { x: Fx::from_int(x), y: Fx::from_int(y), z: Fx::from_int(z) }
}

impl Vec3 {
    /// The zero vector.
    pub fn zeros() -> (r: Vec3)
        ensures
            r.x.v == 0 && r.y.v == 0 && r.z.v == 0,
            r.wf(),
    {
        Vec3 { x: Fx::zero(), y: Fx::zero(), z: Fx::zero() }
    }

    /// The all-ones vector.
    pub fn ones() -> (r: Vec3)
        ensures
            r.x == Fx::spec_raw(crate::fixed::SCALE as int),
            r.y == Fx::spec_raw(crate::fixed::SCALE as int),
            r.z == Fx::spec_raw(crate::fixed::SCALE as int),
            r.wf(),
    {
        Vec3 { x: Fx::one(), y: Fx::one(), z: Fx::one() }
    }

    /// Component-wise sum.
    pub fn add(self, o: Vec3) -> (r: Vec3)
        requires
            self.wf(),
            o.wf(),
        ensures
            r == self.spec_add(o),
            r.wf(),
    {
        Vec3 { x: self.x.add(o.x), y: self.y.add(o.y), z: self.z.add(o.z) }
    }

    /// Component-wise difference.
    pub fn sub(self, o: Vec3) -> (r: Vec3)
        requires
            self.wf(),
            o.wf(),
        ensures
            r == self.spec_sub(o),
            r.wf(),
    {
        Vec3 { x: self.x.sub(o.x), y: self.y.sub(o.y), z: self.z.sub(o.z) }
    }

    /// Scale by a scalar.
    pub fn scale(self, t: Fx) -> (r: Vec3)
        requires
            self.wf(),
            t.wf(),
        ensures
            r == self.spec_scale(t),
            r.wf(),
    {
        Vec3 { x: self.x.mul(t), y: self.y.mul(t), z: self.z.mul(t) }
    }

    /// Divide by a scalar.
    pub fn div_scalar(self, t: Fx) -> (r: Vec3)
        requires
            self.wf(),
            t.wf(),
        ensures
            r == self.spec_div_scalar(t),
            r.wf(),
    {
        Vec3 { x: self.x.div(t), y: self.y.div(t), z: self.z.div(t) }
    }

    /// Component-wise product.
    pub fn mul_elements(self, o: Vec3) -> (r: Vec3)
        requires
            self.wf(),
            o.wf(),
        ensures
            r == self.spec_mul_elements(o),
            r.wf(),
    {
        Vec3 { x: self.x.mul(o.x), y: self.y.mul(o.y), z: self.z.mul(o.z) }
    }

    /// Component-wise negation.
    pub fn neg(self) -> (r: Vec3)
        requires
            self.wf(),
        ensures
            r == self.spec_neg(),
            r.wf(),
    {
        Vec3 { x: self.x.neg(), y: self.y.neg(), z: self.z.neg() }
    }

    /// Squared length.
    pub fn length2(self) -> (r: Fx)
        requires
            self.wf(),
        ensures
            r == self.spec_length2(),
            r.wf(),
    {
        dot(self, self)
    }

    /// Length.
    pub fn length(self) -> (r: Fx)
        requires
            self.wf(),
        ensures
            r == self.spec_length(),
            r.wf(),
    {
        self.length2().sqrt()
    }

    /// Mirror about a unit normal: `self - n * (2 * dot(self, n))`.
    pub fn reflect(&self, n: Vec3) -> (r: Vec3)
        requires
            self.wf(),
            n.wf(),
        ensures
            r == spec_reflect(*self, n),
            r.wf(),
    {
        let d: Fx = dot(*self, n);
        self.sub(n.scale(d).scale(Fx::from_int(2)))
    }

    /// Whether every component is smaller than one raw step: the fixed-point
    /// reading of "numerically near zero".
    pub fn near_zero(&self) -> (r: bool)
        requires
            self.wf(),
        ensures
            r == spec_near_zero(*self),
    {
        let sx: Fx = self.x.abs();
        let sy: Fx = self.y.abs();
        let sz: Fx = self.z.abs();
        sx.v < 1 && sy.v < 1 && sz.v < 1
    }
}

/// Mirror of `v` about `n`.
pub open spec fn spec_reflect(v: Vec3, n: Vec3) -> Vec3 {
    v.spec_sub(n.spec_scale(v.spec_dot(n)).spec_scale(Fx { v: (2 * crate::fixed::SCALE as int) as i64 }))
}

/// All components smaller in magnitude than one raw step.
pub open spec fn spec_near_zero(v: Vec3) -> bool {
    iabs(v.x.v as int) < 1 && iabs(v.y.v as int) < 1 && iabs(v.z.v as int) < 1
}

/// Cross product.
pub open spec fn spec_cross(a: Vec3, b: Vec3) -> Vec3 {
    Vec3 {
        x: a.y.spec_mul(b.z).spec_sub(a.z.spec_mul(b.y)),
        y: a.z.spec_mul(b.x).spec_sub(a.x.spec_mul(b.z)),
        z: a.x.spec_mul(b.y).spec_sub(a.y.spec_mul(b.x)),
    }
}

/// Cross product: the vector perpendicular to both arguments.
pub fn cross(a: Vec3, b: Vec3) -> (r: Vec3)
    requires
        a.wf(),
        b.wf(),
    ensures
        r == spec_cross(a, b),
        r.wf(),
{
    Vec3 {
        x: a.y.mul(b.z).sub(a.z.mul(b.y)),
        y: a.z.mul(b.x).sub(a.x.mul(b.z)),
        z: a.x.mul(b.y).sub(a.y.mul(b.x)),
    }
}

/// Scaling by zero yields the zero vector.
pub proof fn lemma_scale_by_zero(v: Vec3, t: Fx)
    requires
        t.v == 0,
    ensures
        v.spec_scale(t) == (Vec3 { x: Fx { v: 0 }, y: Fx { v: 0 }, z: Fx { v: 0 } }),
{
    crate::fixed::lemma_mul_raw_zero(v.x.v as int);
    crate::fixed::lemma_mul_raw_zero(v.y.v as int);
    crate::fixed::lemma_mul_raw_zero(v.z.v as int);
}

/// Adding the zero vector changes nothing, within range.
pub proof fn lemma_add_zero(a: Vec3)
    requires
        a.wf(),
    ensures
        a.spec_add(Vec3 { x: Fx { v: 0 }, y: Fx { v: 0 }, z: Fx { v: 0 } }) == a,
{
    crate::fixed::lemma_clip_id(a.x.v as int);
    crate::fixed::lemma_clip_id(a.y.v as int);
    crate::fixed::lemma_clip_id(a.z.v as int);
}

/// Subtracting the zero vector changes nothing, within range.
pub proof fn lemma_sub_zero(a: Vec3)
    requires
        a.wf(),
    ensures
        a.spec_sub(Vec3 { x: Fx { v: 0 }, y: Fx { v: 0 }, z: Fx { v: 0 } }) == a,
{
    crate::fixed::lemma_clip_id(a.x.v as int);
    crate::fixed::lemma_clip_id(a.y.v as int);
    crate::fixed::lemma_clip_id(a.z.v as int);
}

/// Spec-level vector operations keep their results within range.
pub proof fn lemma_vec_ops_wf(a: Vec3, b: Vec3, t: Fx)
    requires
        a.wf(),
        b.wf(),
        t.wf(),
    ensures
        a.spec_add(b).wf(),
        a.spec_sub(b).wf(),
        a.spec_scale(t).wf(),
        a.spec_div_scalar(t).wf(),
        a.spec_mul_elements(b).wf(),
        a.spec_neg().wf(),
        a.spec_dot(b).wf(),
{
    crate::fixed::lemma_spec_ops_wf(a.x, b.x);
    crate::fixed::lemma_spec_ops_wf(a.y, b.y);
    crate::fixed::lemma_spec_ops_wf(a.z, b.z);
    crate::fixed::lemma_spec_ops_wf(a.x, t);
    crate::fixed::lemma_spec_ops_wf(a.y, t);
    crate::fixed::lemma_spec_ops_wf(a.z, t);
    crate::fixed::lemma_spec_ops_wf(a.x.spec_mul(b.x), a.y.spec_mul(b.y));
    crate::fixed::lemma_spec_ops_wf(
        a.x.spec_mul(b.x).spec_add(a.y.spec_mul(b.y)),
        a.z.spec_mul(b.z),
    );
}

/// Negating one argument of a dot product negates the result.
pub proof fn lemma_dot_neg(a: Vec3, b: Vec3)
    requires
        a.wf(),
        b.wf(),
    ensures
        a.spec_dot(b.spec_neg()) == a.spec_dot(b).spec_neg(),
{
    lemma_mul_neg_right(a.x, b.x);
    lemma_mul_neg_right(a.y, b.y);
    lemma_mul_neg_right(a.z, b.z);
    crate::fixed::lemma_spec_ops_wf(a.x, b.x);
    crate::fixed::lemma_spec_ops_wf(a.y, b.y);
    crate::fixed::lemma_spec_ops_wf(a.z, b.z);
    lemma_add_neg(a.x.spec_mul(b.x), a.y.spec_mul(b.y));
    crate::fixed::lemma_spec_ops_wf(a.x.spec_mul(b.x), a.y.spec_mul(b.y));
    lemma_add_neg(a.x.spec_mul(b.x).spec_add(a.y.spec_mul(b.y)), a.z.spec_mul(b.z));
}

/// Negating the right factor negates the product.
pub proof fn lemma_mul_neg_right(a: Fx, b: Fx)
    requires
        a.wf(),
        b.wf(),
    ensures
        a.spec_mul(b.spec_neg()) == a.spec_mul(b).spec_neg(),
{
    assert(b.spec_neg().v as int == -(b.v as int));
    crate::fixed::lemma_mul_raw_neg(a.v as int, b.v as int);
    crate::fixed::lemma_spec_ops_wf(a, b);
    crate::fixed::lemma_spec_ops_wf(b, a);
    crate::fixed::lemma_spec_ops_wf(a, b.spec_neg());
}

/// Negating both addends negates the saturated sum.
pub proof fn lemma_add_neg(a: Fx, b: Fx)
    requires
        a.wf(),
        b.wf(),
    ensures
        a.spec_neg().spec_add(b.spec_neg()) == a.spec_add(b).spec_neg(),
{
    assert(a.spec_neg().v as int == -(a.v as int));
    assert(b.spec_neg().v as int == -(b.v as int));
    crate::fixed::lemma_clip_neg(a.v + b.v);
    crate::fixed::lemma_spec_ops_wf(a, b);
    crate::fixed::lemma_spec_ops_wf(b, a);
}

/// Multiplying component-wise by the all-ones color changes nothing.
pub proof fn lemma_mul_elements_one(v: Vec3)
    requires
        v.wf(),
    ensures
        v.spec_mul_elements(Vec3 {
            x: Fx { v: crate::fixed::SCALE },
            y: Fx { v: crate::fixed::SCALE },
            z: Fx { v: crate::fixed::SCALE },
        }) == v,
{
    crate::fixed::lemma_mul_raw_one(v.x.v as int);
    crate::fixed::lemma_mul_raw_one(v.y.v as int);
    crate::fixed::lemma_mul_raw_one(v.z.v as int);
}

/// A squared length is never negative.
pub proof fn lemma_length2_nonneg(v: Vec3)
    ensures
        v.spec_length2().v >= 0,
{
    assert(crate::fixed::mul_raw(v.x.v as int, v.x.v as int) >= 0);
    assert(crate::fixed::mul_raw(v.y.v as int, v.y.v as int) >= 0);
    assert(crate::fixed::mul_raw(v.z.v as int, v.z.v as int) >= 0);
}

/// The zero vector has squared length zero, in fixed-point arithmetic too.
pub proof fn lemma_length2_zero(v: Vec3)
    requires
        v.x.v == 0,
        v.y.v == 0,
        v.z.v == 0,
    ensures
        v.spec_length2().v == 0,
{
    assert(crate::fixed::iabs(0) == 0);
    assert(crate::fixed::cap_mag(0) == 0);
    assert(crate::fixed::signed(0, false) == 0);
    assert((crate::fixed::iabs(0) * crate::fixed::iabs(0)) / (crate::fixed::SCALE as int) == 0);
    assert(v.x.spec_mul(v.x).v == 0);
    assert(v.x.spec_mul(v.x).spec_add(v.y.spec_mul(v.y)).v == 0);
}

/// Dot product.
pub fn dot(a: Vec3, b: Vec3) -> (r: Fx)
    requires
        a.wf(),
        b.wf(),
    ensures
        r == a.spec_dot(b),
        r.wf(),
{
    a.x.mul(b.x).add(a.y.mul(b.y)).add(a.z.mul(b.z))
}

/// The unit-length vector pointing the way `v` does, computed as
/// `v * (1 / length(v))`; meaningful only when `length(v) > 0`.
pub open spec fn spec_unit(v: Vec3) -> Vec3 {
    v.spec_scale(Fx { v: crate::fixed::SCALE }.spec_div(v.spec_length()))
}

/// Normalize `v` to unit length.
pub fn unit_vector(v: Vec3) -> (r: Vec3)
    requires
        v.wf(),
    ensures
        r == spec_unit(v),
        r.wf(),
{
    let il: Fx = Fx::one().div(v.length());
    v.scale(il)
}

/// Blend: `a * (1 - t) + b * t`.
pub open spec fn spec_lerp3(a: Vec3, b: Vec3, t: Fx) -> Vec3 {
    a.spec_scale(Fx { v: crate::fixed::SCALE }.spec_sub(t)).spec_add(b.spec_scale(t))
}

/// Linear interpolation between `a` (at 0) and `b` (at 1).
pub fn lerp3(a: Vec3, b: Vec3, t: Fx) -> (r: Vec3)
    requires
        a.wf(),
        b.wf(),
        t.wf(),
    ensures
        r == spec_lerp3(a, b, t),
        r.wf(),
{
    let u: Fx = Fx::one().sub(t);
    a.scale(u).add(b.scale(t))
}

/// Refraction direction through a boundary with index ratio `etai_over_etat`:
/// the perpendicular part `(uv + n * cos) * ratio` plus the parallel part
/// `n * (-sqrt(|1 - |perp|^2|))`.
pub open spec fn spec_refract(uv: Vec3, n: Vec3, etai_over_etat: Fx) -> Vec3 {
    let cos_theta = spec_minf(uv.spec_dot(n).spec_neg(), Fx { v: crate::fixed::SCALE });
    let r_out_perp = uv.spec_add(n.spec_scale(cos_theta)).spec_scale(etai_over_etat);
    let parn = spec_fx_abs(
        Fx { v: crate::fixed::SCALE }.spec_sub(r_out_perp.spec_length2()),
    ).spec_sqrt().spec_neg();
    r_out_perp.spec_add(n.spec_scale(parn))
}

/// The smaller scalar, as a value.
pub open spec fn spec_minf(a: Fx, b: Fx) -> Fx {
    if a.v < b.v {
        a
    } else {
        b
    }
}

/// The magnitude of a scalar, as a value.
pub open spec fn spec_fx_abs(a: Fx) -> Fx {
    Fx { v: iabs(a.v as int) as i64 }
}

/// Refract `uv` through a surface with outward unit normal `n`.
pub fn refract(uv: Vec3, n: Vec3, etai_over_etat: Fx) -> (r: Vec3)
    requires
        uv.wf(),
        n.wf(),
        etai_over_etat.wf(),
    ensures
        r == spec_refract(uv, n, etai_over_etat),
        r.wf(),
{
    let cos_theta: Fx = crate::fixed::minf(dot(uv, n).neg(), Fx::one());
    let r_out_perp: Vec3 = uv.add(n.scale(cos_theta)).scale(etai_over_etat);
    let parn: Fx = Fx::one().sub(r_out_perp.length2()).abs().sqrt().neg();
    r_out_perp.add(n.scale(parn))
}

/// A ray: origin plus direction, traced as `origin + t * direction`.
#[derive(Clone, Copy, Debug, PartialEq, Eq, Structural)]
pub struct Ray3 {
    pub orig: Vec3,
    pub dir: Vec3,
}

impl Ray3 {
    /// Both endpoints within range.
    pub open spec fn wf(self) -> bool {
        self.orig.wf() && self.dir.wf()
    }

    /// The point the ray reaches at parameter `t`.
    pub open spec fn spec_at(self, t: Fx) -> Vec3 {
        self.orig.spec_add(self.dir.spec_scale(t))
    }

    /// The ray's origin.
    pub fn origin(&self) -> (r: Vec3)
        ensures
            r == self.orig,
    {
        self.orig
    }

    /// The ray's direction.
    pub fn direction(&self) -> (r: Vec3)
        ensures
            r == self.dir,
    {
        self.dir
    }

    /// Evaluate the ray at parameter `t`.
    pub fn at(&self, t: Fx) -> (r: Vec3)
        requires
            self.wf(),
            t.wf(),
        ensures
            r == self.spec_at(t),
            r.wf(),
    {
        self.orig.add(self.dir.scale(t))
    }

    /// A ray from `origin` toward `direction`.
    pub fn new(origin: Vec3, direction: Vec3) -> (r: Ray3)
        ensures
            r.orig == origin,
            r.dir == direction,
    {
        Ray3 { orig: origin, dir: direction }
    }
}

} // verus!
