//! Hittable geometry: spheres and lists of them, with the ray-intersection
//! protocol.
//!
//! `spec_hit` is the exact mathematical mirror of the executable intersection
//! walk, so nearest-hit selection over a list is a proved property, not a
//! convention.

use vstd::prelude::*;
use crate::fixed::Fx;
use crate::vec3::{Vec3, Ray3, dot};

verus! {

/// Index of a material in a `MaterialCollection`.
pub type MaterialId = usize;

/// The interval of acceptable ray parameters `[t_min, t_max]`.
#[derive(Clone, Copy, Debug, PartialEq, Eq, Structural)]
pub struct SamplingCfg {
    pub t_min: Fx,
    pub t_max: Fx,
}

impl SamplingCfg {
    /// Both bounds within scalar range.
    pub open spec fn wf(self) -> bool {
        self.t_min.wf() && self.t_max.wf()
    }

    /// Whether `t` lies inside the interval.
    pub open spec fn spec_inrange(self, t: Fx) -> bool {
        t.v >= self.t_min.v && t.v <= self.t_max.v
    }

    /// The interval `[minv, maxv]`.
    pub fn new(minv: Fx, maxv: Fx) -> (r: SamplingCfg)
        ensures
            r.t_min == minv,
            r.t_max == maxv,
    {
        SamplingCfg { t_min: minv, t_max: maxv }
    }

    /// Test whether `t` lies inside the interval.
    pub fn inrange(&self, t: Fx) -> (r: bool)
        ensures
            r == self.spec_inrange(t),
    {
        t.v >= self.t_min.v && t.v <= self.t_max.v
    }
}

/// What a successful intersection reports: the point hit, the unit normal
/// facing the incoming ray, the ray parameter, which face was struck, and the
/// index of the material that scatters there.
#[derive(Clone, Copy, Debug, PartialEq, Eq, Structural)]
pub struct HitRecord {
    pub p: Vec3,
    pub normal: Vec3,
    pub mat: MaterialId,
    pub t: Fx,
    pub front_face: bool,
}

/// The record `rec` with normal chosen to oppose the ray: front hits keep the
/// outward normal, back hits flip it.
pub open spec fn spec_face_normal(rec: HitRecord, r: Ray3, outward_normal: Vec3) -> HitRecord {
    let front = r.dir.spec_dot(outward_normal).v < 0;
    HitRecord {
        front_face: front,
        normal: if front {
            outward_normal
        } else {
            outward_normal.spec_neg()
        },
        ..rec
    }
}

impl HitRecord {
    /// All geometric fields within scalar range.
    pub open spec fn wf(self) -> bool {
        self.p.wf() && self.normal.wf() && self.t.wf()
    }

    /// A blank record carrying only a material index.
    pub fn new_default(mat: MaterialId) -> (r: HitRecord)
        ensures
            r == (HitRecord {
                p: Vec3 { x: Fx { v: 0 }, y: Fx { v: 0 }, z: Fx { v: 0 } },
                normal: Vec3 { x: Fx { v: 0 }, y: Fx { v: 0 }, z: Fx { v: 0 } },
                mat: mat,
                t: Fx { v: 0 },
                front_face: false,
            }),
            r.wf(),
    {
        HitRecord {
            p: Vec3::zeros(),
            normal: Vec3::zeros(),
            mat: mat,
            t: Fx::zero(),
            front_face: false,
        }
    }

    /// Orient the stored normal against the incoming ray.
    pub fn set_face_normal(&mut self, r: &Ray3, outward_normal: Vec3)
        requires
            old(self).wf(),
            r.wf(),
            outward_normal.wf(),
        ensures
            *final(self) == spec_face_normal(*old(self), *r, outward_normal),
            final(self).wf(),
    {
        let d: Fx = dot(r.dir, outward_normal);
        self.front_face = d.v < 0;
        self.normal = if self.front_face {
            outward_normal
        } else {
            outward_normal.neg()
        };
    }
}

/// A sphere, owning nothing but its own geometry and a material index.
#[derive(Clone, Copy, Debug, PartialEq, Eq, Structural)]
pub struct Sphere {
    pub center: Vec3,
    pub radius: Fx,
    pub material: MaterialId,
}

/// The record a sphere produces for a hit at parameter `root`.
pub open spec fn spec_sphere_record(s: Sphere, r: Ray3, root: Fx) -> HitRecord {
    let p = r.spec_at(root);
    let outward_normal = p.spec_sub(s.center).spec_div_scalar(s.radius);
    spec_face_normal(
        HitRecord {
            p: p,
            normal: Vec3 { x: Fx { v: 0 }, y: Fx { v: 0 }, z: Fx { v: 0 } },
            mat: s.material,
            t: root,
            front_face: false,
        },
        r,
        outward_normal,
    )
}

/// Exact mirror of the sphere intersection: solve the half-b quadratic, try
/// the nearer root first, then the farther, and reject both if out of range.
pub open spec fn spec_sphere_hit(s: Sphere, r: Ray3, cfg: SamplingCfg) -> Option<HitRecord> {
    let oc = r.orig.spec_sub(s.center);
    let a = r.dir.spec_length2();
    let half_b = oc.spec_dot(r.dir);
    let c = oc.spec_length2().spec_sub(s.radius.spec_mul(s.radius));
    let discrm = half_b.spec_mul(half_b).spec_sub(a.spec_mul(c));
    if discrm.v < 0 {
        None
    } else {
        let sqrtd = discrm.spec_sqrt();
        let rootmin = half_b.spec_neg().spec_sub(sqrtd).spec_div(a);
        let rootmax = half_b.spec_neg().spec_add(sqrtd).spec_div(a);
        if cfg.spec_inrange(rootmin) {
            Some(spec_sphere_record(s, r, rootmin))
        } else if cfg.spec_inrange(rootmax) {
            Some(spec_sphere_record(s, r, rootmax))
        } else {
            None
        }
    }
}

impl Sphere {
    /// Geometry within scalar range.
    pub open spec fn wf(self) -> bool {
        self.center.wf() && self.radius.wf()
    }

    /// A sphere at `cen` with radius `r` scattering through material `mat`.
    pub fn new(cen: Vec3, r: Fx, mat: MaterialId) -> (s: Sphere)
        ensures
            s == (Sphere { center: cen, radius: r, material: mat }),
    {
        Sphere { center: cen, radius: r, material: mat }
    }

    /// A sphere from whole-number center coordinates and radius.
    pub fn new2(cx: i32, cy: i32, cz: i32, r: i32, mat: MaterialId) -> (s: Sphere)
        ensures
            s.center == (Vec3 {
                x: Fx::spec_raw(cx as int * crate::fixed::SCALE as int),
                y: Fx::spec_raw(cy as int * crate::fixed::SCALE as int),
                z: Fx::spec_raw(cz as int * crate::fixed::SCALE as int),
            }),
            s.radius == Fx::spec_raw(r as int * crate::fixed::SCALE as int),
            s.material == mat,
            s.wf(),
    {
        Sphere {
            center: crate::vec3::vec3i(cx, cy, cz),
            radius: Fx::from_int(r),
            material: mat,
        }
    }

    /// Intersect a ray with this sphere inside the parameter interval `cfg`.
    pub fn hit(&self, r: &Ray3, cfg: SamplingCfg) -> (res: Option<HitRecord>)
        requires
            self.wf(),
            r.wf(),
        ensures
            res == spec_sphere_hit(*self, *r, cfg),
            res is Some ==> res->Some_0.wf() && res->Some_0.mat == self.material
                && cfg.spec_inrange(res->Some_0.t),
    {
        let oc: Vec3 = r.origin().sub(self.center);
        let a: Fx = r.dir.length2();
        let half_b: Fx = dot(oc, r.dir);
        let r2: Fx = self.radius.mul(self.radius);
        let c: Fx = oc.length2().sub(r2);
        let discrm: Fx = half_b.mul(half_b).sub(a.mul(c));

        if discrm.v < 0 {
            return None;
        }

        let sqrtd: Fx = discrm.sqrt();
        let rootmin: Fx = half_b.neg().sub(sqrtd).div(a);
        let mut root: Fx = rootmin;
        if !cfg.inrange(rootmin) {
            let rootmax: Fx = half_b.neg().add(sqrtd).div(a);
            root = rootmax;
            if !cfg.inrange(rootmax) {
                return None;
            }
        }

        let mut record: HitRecord = HitRecord::new_default(self.material);
        record.t = root;
        record.p = r.at(record.t);
        let outward_normal: Vec3 = record.p.sub(self.center).div_scalar(self.radius);
        record.set_face_normal(r, outward_normal);
        Some(record)
    }
}

/// Parameter of the nearer intersection of `r` with the sphere, by the
/// half-b quadratic; negative one signals a miss.
pub open spec fn spec_hit_sphere(center: Vec3, radius: Fx, r: Ray3) -> Fx {
    let oc = r.orig.spec_sub(center);
    let a = r.dir.spec_length2();
    let half_b = oc.spec_dot(r.dir);
    let c = oc.spec_length2().spec_sub(radius.spec_mul(radius));
    let discrm = half_b.spec_mul(half_b).spec_sub(a.spec_mul(c));
    if discrm.v < 0 {
        Fx { v: (-(crate::fixed::SCALE as int)) as i64 }
    } else {
        half_b.spec_neg().spec_sub(discrm.spec_sqrt()).spec_div(a)
    }
}

/// Parameter of the nearer intersection, or -1 on a miss.
pub fn hit_sphere(center: Vec3, radius: Fx, r: &Ray3) -> (t: Fx)
    requires
        center.wf(),
        radius.wf(),
        r.wf(),
    ensures
        t == spec_hit_sphere(center, radius, *r),
        t.wf(),
{
    let oc: Vec3 = r.origin().sub(center);
    let a: Fx = r.dir.length2();
    let half_b: Fx = dot(oc, r.dir);
    let c: Fx = oc.length2().sub(radius.mul(radius));
    let discrm: Fx = half_b.mul(half_b).sub(a.mul(c));
    if discrm.v < 0 {
        Fx::from_int(-1)
    } else {
        half_b.neg().sub(discrm.sqrt()).div(a)
    }
}

/// Parameter of the nearer intersection by the full-b quadratic, the older
/// form of the solver kept for comparison; negative one signals a miss.
pub open spec fn spec_hit_sphere_old(center: Vec3, radius: Fx, r: Ray3) -> Fx {
    let two = Fx { v: (2 * crate::fixed::SCALE as int) as i64 };
    let four = Fx { v: (4 * crate::fixed::SCALE as int) as i64 };
    let oc = r.orig.spec_sub(center);
    let dir = r.dir;
    let a = dir.spec_dot(dir);
    let b = two.spec_mul(oc.spec_dot(dir));
    let c = oc.spec_dot(oc).spec_sub(radius.spec_mul(radius));
    let discrm = b.spec_mul(b).spec_sub(four.spec_mul(a).spec_mul(c));
    if discrm.v < 0 {
        Fx { v: (-(crate::fixed::SCALE as int)) as i64 }
    } else {
        b.spec_neg().spec_sub(discrm.spec_sqrt()).spec_div(two.spec_mul(a))
    }
}

/// The older full-b quadratic solver: the nearer intersection parameter, or
/// -1 on a miss.
#[allow(non_snake_case)]
pub fn hit_sphere_OLD(center: Vec3, radius: Fx, r: &Ray3) -> (t: Fx)
    requires
        center.wf(),
        radius.wf(),
        r.wf(),
    ensures
        t == spec_hit_sphere_old(center, radius, *r),
        t.wf(),
{
    let two: Fx = Fx::from_int(2);
    let four: Fx = Fx::from_int(4);
    let oc: Vec3 = r.origin().sub(center);
    let dir: Vec3 = r.direction();
    let a: Fx = dot(dir, dir);
    let b: Fx = two.mul(dot(oc, dir));
    let c: Fx = dot(oc, oc).sub(radius.mul(radius));
    let discrm: Fx = b.mul(b).sub(four.mul(a).mul(c));
    if discrm.v < 0 {
        Fx::from_int(-1)
    } else {
        b.neg().sub(discrm.sqrt()).div(two.mul(a))
    }
}

/// A scene object: a single sphere, or an ordered list of objects whose
/// nearest hit wins.
pub enum HittableObject {
    Sphere(Sphere),
    List(Vec<HittableObject>),
}

impl HittableObject {
    /// All geometry in the tree within scalar range.
    pub open spec fn wf(self) -> bool
        decreases self,
    {
        match self {
            HittableObject::Sphere(s) => s.wf(),
            HittableObject::List(objs) => forall|i: int|
                0 <= i < objs@.len() ==> (#[trigger] objs@[i]).wf(),
        }
    }

    /// Every material index in the tree lies below `n`.
    pub open spec fn mats_below(self, n: int) -> bool
        decreases self,
    {
        match self {
            HittableObject::Sphere(s) => s.material < n,
            HittableObject::List(objs) => forall|i: int|
                0 <= i < objs@.len() ==> (#[trigger] objs@[i]).mats_below(n),
        }
    }

    /// An empty list of objects.
    pub fn mk_list() -> (r: Vec<HittableObject>)
        ensures
            r@.len() == 0,
    {
        Vec::new()
    }

    /// Wrap a vector of objects as a single list object.
    pub fn wrap(v: Vec<HittableObject>) -> (r: HittableObject)
        ensures
            r == HittableObject::List(v),
    {
        HittableObject::List(v)
    }
}

/// Exact mirror of the scene intersection walk.
pub open spec fn spec_hit(obj: HittableObject, r: Ray3, cfg: SamplingCfg) -> Option<HitRecord>
    decreases obj, 1int, 0int,
{
    match obj {
        HittableObject::Sphere(s) => spec_sphere_hit(s, r, cfg),
        HittableObject::List(objs) => spec_hit_children(obj, objs@.len() as int, r, cfg),
    }
}

/// Result of intersecting the first `i` children of the list `obj`, narrowing
/// the interval's upper bound to each hit found, so later children can only
/// better the best hit so far.
pub open spec fn spec_hit_children(obj: HittableObject, i: int, r: Ray3, cfg: SamplingCfg)
    -> Option<HitRecord>
    decreases obj, 0int, i,
{
    match obj {
        HittableObject::List(objs) => {
            if i <= 0 || i > objs@.len() {
                None
            } else {
                let prev = spec_hit_children(obj, i - 1, r, cfg);
                let cur_cfg = match prev {
                    Some(h) => SamplingCfg { t_min: cfg.t_min, t_max: h.t },
                    None => cfg,
                };
                match spec_hit(objs@[i - 1], r, cur_cfg) {
                    Some(h2) => Some(h2),
                    None => prev,
                }
            }
        },
        _ => None,
    }
}

/// What holds of a hit record `h` that `spec_hit` can produce for ray `r`
/// inside `cfg`, given material indices below `n`: the record is in range,
/// its parameter lies inside the interval, its material index is registered,
/// its point is the ray evaluated at that parameter, and its normal never
/// points along the ray — `dot(r.dir, h.normal) <= 0` for front and back
/// hits alike.
pub open spec fn hit_props(h: HitRecord, r: Ray3, cfg: SamplingCfg, n: int) -> bool {
    &&& h.wf()
    &&& (h.mat as int) < n
    &&& cfg.spec_inrange(h.t)
    &&& h.p == r.spec_at(h.t)
    &&& r.dir.spec_dot(h.normal).v <= 0
}

/// The record of a sphere hit satisfies `hit_props`.
#[verifier::rlimit(60)]
pub proof fn lemma_sphere_hit_props(s: Sphere, r: Ray3, cfg: SamplingCfg, n: int)
    requires
        s.wf(),
        r.wf(),
        (s.material as int) < n,
    ensures
        spec_sphere_hit(s, r, cfg) is Some
            ==> hit_props(spec_sphere_hit(s, r, cfg)->Some_0, r, cfg, n),
{
    if spec_sphere_hit(s, r, cfg) is Some {
        let oc = r.orig.spec_sub(s.center);
        let a = r.dir.spec_length2();
        let half_b = oc.spec_dot(r.dir);
        let c = oc.spec_length2().spec_sub(s.radius.spec_mul(s.radius));
        let discrm = half_b.spec_mul(half_b).spec_sub(a.spec_mul(c));
        let sqrtd = discrm.spec_sqrt();
        let rootmin = half_b.spec_neg().spec_sub(sqrtd).spec_div(a);
        let rootmax = half_b.spec_neg().spec_add(sqrtd).spec_div(a);
        let root = if cfg.spec_inrange(rootmin) {
            rootmin
        } else {
            rootmax
        };
        crate::vec3::lemma_vec_ops_wf(r.orig, s.center, s.radius);
        crate::vec3::lemma_vec_ops_wf(oc, r.dir, s.radius);
        crate::fixed::lemma_spec_ops_wf(s.radius, s.radius);
        crate::fixed::lemma_spec_ops_wf(oc.spec_length2(), s.radius.spec_mul(s.radius));
        crate::fixed::lemma_spec_ops_wf(half_b, half_b);
        crate::fixed::lemma_spec_ops_wf(a, c);
        crate::fixed::lemma_spec_ops_wf(half_b.spec_mul(half_b), a.spec_mul(c));
        crate::fixed::lemma_spec_ops_wf(discrm, discrm);
        crate::fixed::lemma_spec_ops_wf(half_b, sqrtd);
        crate::fixed::lemma_spec_ops_wf(half_b.spec_neg(), sqrtd);
        crate::fixed::lemma_spec_ops_wf(half_b.spec_neg().spec_sub(sqrtd), a);
        crate::fixed::lemma_spec_ops_wf(half_b.spec_neg().spec_add(sqrtd), a);
        assert(root.wf());
        let p = r.spec_at(root);
        crate::vec3::lemma_vec_ops_wf(r.dir, r.dir, root);
        crate::vec3::lemma_vec_ops_wf(r.orig, r.dir.spec_scale(root), root);
        assert(p.wf());
        let outward_normal = p.spec_sub(s.center).spec_div_scalar(s.radius);
        crate::vec3::lemma_vec_ops_wf(p, s.center, s.radius);
        crate::vec3::lemma_vec_ops_wf(p.spec_sub(s.center), p, s.radius);
        assert(outward_normal.wf());
        crate::vec3::lemma_vec_ops_wf(r.dir, outward_normal, root);
        if r.dir.spec_dot(outward_normal).v < 0 {
        } else {
            crate::vec3::lemma_dot_neg(r.dir, outward_normal);
        }
    }
}

/// Every record `spec_hit` produces for the tree satisfies `hit_props`.
pub proof fn lemma_hit_props(obj: HittableObject, r: Ray3, cfg: SamplingCfg, n: int)
    requires
        obj.wf(),
        r.wf(),
        obj.mats_below(n),
    ensures
        spec_hit(obj, r, cfg) is Some ==> hit_props(spec_hit(obj, r, cfg)->Some_0, r, cfg, n),
    decreases obj, 1int, 0int,
{
    match obj {
        HittableObject::Sphere(s) => {
            lemma_sphere_hit_props(s, r, cfg, n);
        },
        HittableObject::List(objs) => {
            lemma_hit_children_props(obj, objs@.len() as int, r, cfg, n);
        },
    }
}

/// Every record the child walk produces satisfies `hit_props`.
pub proof fn lemma_hit_children_props(
    obj: HittableObject,
    i: int,
    r: Ray3,
    cfg: SamplingCfg,
    n: int,
)
    requires
        obj.wf(),
        r.wf(),
        obj.mats_below(n),
    ensures
        spec_hit_children(obj, i, r, cfg) is Some
            ==> hit_props(spec_hit_children(obj, i, r, cfg)->Some_0, r, cfg, n),
    decreases obj, 0int, i,
{
    match obj {
        HittableObject::List(objs) => {
            if 0 < i <= objs@.len() {
                lemma_hit_children_props(obj, i - 1, r, cfg, n);
                let prev = spec_hit_children(obj, i - 1, r, cfg);
                let cur_cfg = match prev {
                    Some(h) => SamplingCfg { t_min: cfg.t_min, t_max: h.t },
                    None => cfg,
                };
                assert(objs@[i - 1].wf());
                assert(objs@[i - 1].mats_below(n));
                lemma_hit_props(objs@[i - 1], r, cur_cfg, n);
            }
        },
        _ => {},
    }
}

/// A list with no children intersects nothing.
pub proof fn lemma_empty_list_misses(w: HittableObject, r: Ray3, cfg: SamplingCfg)
    requires
        w is List,
        w->List_0@.len() == 0,
    ensures
        spec_hit(w, r, cfg) is None,
{
}

/// The quadratic's two roots come out ordered: the "minus" root never
/// exceeds the "plus" root, since the direction's squared length cannot be
/// negative.
#[verifier::rlimit(60)]
pub proof fn lemma_sphere_roots_ordered(s: Sphere, r: Ray3)
    requires
        s.wf(),
        r.wf(),
    ensures
        ({
            let oc = r.orig.spec_sub(s.center);
            let a = r.dir.spec_length2();
            let half_b = oc.spec_dot(r.dir);
            let c = oc.spec_length2().spec_sub(s.radius.spec_mul(s.radius));
            let discrm = half_b.spec_mul(half_b).spec_sub(a.spec_mul(c));
            let sqrtd = discrm.spec_sqrt();
            half_b.spec_neg().spec_sub(sqrtd).spec_div(a).v <= half_b.spec_neg().spec_add(
                sqrtd,
            ).spec_div(a).v
        }),
{
    let oc = r.orig.spec_sub(s.center);
    let a = r.dir.spec_length2();
    let half_b = oc.spec_dot(r.dir);
    let c = oc.spec_length2().spec_sub(s.radius.spec_mul(s.radius));
    let discrm = half_b.spec_mul(half_b).spec_sub(a.spec_mul(c));
    let sqrtd = discrm.spec_sqrt();
    crate::vec3::lemma_length2_nonneg(r.dir);
    crate::vec3::lemma_vec_ops_wf(r.orig, s.center, s.radius);
    crate::vec3::lemma_vec_ops_wf(oc, r.dir, s.radius);
    crate::fixed::lemma_spec_ops_wf(s.radius, s.radius);
    crate::fixed::lemma_spec_ops_wf(oc.spec_length2(), s.radius.spec_mul(s.radius));
    crate::fixed::lemma_spec_ops_wf(half_b, half_b);
    crate::fixed::lemma_spec_ops_wf(a, c);
    crate::fixed::lemma_spec_ops_wf(half_b.spec_mul(half_b), a.spec_mul(c));
    crate::fixed::lemma_spec_ops_wf(discrm, discrm);
    crate::fixed::lemma_spec_ops_wf(half_b, sqrtd);
    assert(sqrtd.v >= 0);
    let nb = half_b.spec_neg();
    crate::fixed::lemma_clip_monotone(nb.v - sqrtd.v, nb.v + sqrtd.v);
    crate::fixed::lemma_spec_ops_wf(nb, sqrtd);
    crate::fixed::lemma_div_raw_monotone(
        nb.spec_sub(sqrtd).v as int,
        nb.spec_add(sqrtd).v as int,
        a.v as int,
    );
}

/// Narrowing the interval's upper bound keeps a hit at or below the new
/// bound unchanged, and removes a hit above it entirely.
#[verifier::rlimit(60)]
pub proof fn lemma_sphere_hit_narrow(s: Sphere, r: Ray3, cfg: SamplingCfg, cfg2: SamplingCfg)
    requires
        s.wf(),
        r.wf(),
        cfg2.t_min == cfg.t_min,
        cfg2.t_max.v <= cfg.t_max.v,
        spec_sphere_hit(s, r, cfg) is Some,
    ensures
        spec_sphere_hit(s, r, cfg)->Some_0.t.v <= cfg2.t_max.v ==> spec_sphere_hit(s, r, cfg2)
            == spec_sphere_hit(s, r, cfg),
        spec_sphere_hit(s, r, cfg)->Some_0.t.v > cfg2.t_max.v ==> spec_sphere_hit(
            s,
            r,
            cfg2,
        ) is None,
{
    lemma_sphere_roots_ordered(s, r);
}

/// Nearest-hit selection over a list: when two spheres both intersect the
/// ray inside the interval, the list returns the smaller-parameter hit,
/// whichever order its children come in.
#[verifier::rlimit(100)]
pub proof fn lemma_list_nearest_of_two(
    w: HittableObject,
    s1: Sphere,
    s2: Sphere,
    r: Ray3,
    cfg: SamplingCfg,
)
    requires
        s1.wf(),
        s2.wf(),
        r.wf(),
        w is List,
        w->List_0@ == seq![HittableObject::Sphere(s1), HittableObject::Sphere(s2)] || w->List_0@
            == seq![HittableObject::Sphere(s2), HittableObject::Sphere(s1)],
        spec_sphere_hit(s1, r, cfg) is Some,
        spec_sphere_hit(s2, r, cfg) is Some,
        spec_sphere_hit(s1, r, cfg)->Some_0.t.v < spec_sphere_hit(s2, r, cfg)->Some_0.t.v,
    ensures
        spec_hit(w, r, cfg) == spec_sphere_hit(s1, r, cfg),
{
    reveal_with_fuel(spec_hit_children, 4);
    let h1 = spec_sphere_hit(s1, r, cfg)->Some_0;
    let h2 = spec_sphere_hit(s2, r, cfg)->Some_0;
    let objs = w->List_0;
    assert(objs@.len() == 2);
    if objs@ == seq![HittableObject::Sphere(s1), HittableObject::Sphere(s2)] {
        assert(objs@[0] == HittableObject::Sphere(s1));
        assert(objs@[1] == HittableObject::Sphere(s2));
        assert(spec_hit_children(w, 1, r, cfg) == Some(h1));
        let narrowed = SamplingCfg { t_min: cfg.t_min, t_max: h1.t };
        lemma_sphere_hit_narrow(s2, r, cfg, narrowed);
        assert(spec_sphere_hit(s2, r, narrowed) is None);
        assert(spec_hit_children(w, 2, r, cfg) == Some(h1));
    } else {
        assert(objs@[0] == HittableObject::Sphere(s2));
        assert(objs@[1] == HittableObject::Sphere(s1));
        assert(spec_hit_children(w, 1, r, cfg) == Some(h2));
        let narrowed = SamplingCfg { t_min: cfg.t_min, t_max: h2.t };
        lemma_sphere_hit_narrow(s1, r, cfg, narrowed);
        assert(spec_sphere_hit(s1, r, narrowed) == spec_sphere_hit(s1, r, cfg));
        assert(spec_hit_children(w, 2, r, cfg) == Some(h1));
    }
}

impl HittableObject {
    /// Intersect a ray with this object, returning the nearest hit inside
    /// `cfg`, ties going to the earliest child producing it.
    pub fn hit(&self, r: &Ray3, cfg: SamplingCfg) -> (res: Option<HitRecord>)
        requires
            self.wf(),
            r.wf(),
        ensures
            res == spec_hit(*self, *r, cfg),
        decreases *self,
    {
        match self {
            HittableObject::Sphere(sphere) => sphere.hit(r, cfg),
            HittableObject::List(objs) => {
                let mut res: Option<HitRecord> = None;
                let mut cur: SamplingCfg = cfg;
                let n: usize = objs.len();
                for idx in 0..n
                    invariant
                        n == objs@.len(),
                        self == HittableObject::List(*objs),
                        self.wf(),
                        r.wf(),
                        res == spec_hit_children(*self, idx as int, *r, cfg),
                        cur == match res {
                            Some(h) => SamplingCfg { t_min: cfg.t_min, t_max: h.t },
                            None => cfg,
                        },
                {
                    proof {
                        assert(objs@[idx as int].wf());
                    }
                    let hitresult: Option<HitRecord> = objs[idx].hit(r, cur);
                    match hitresult {
                        Some(hit) => {
                            cur.t_max = hit.t;
                            res = Some(hit);
                        },
                        None => {},
                    }
                }
                res
            },
        }
    }
}

} // verus!
