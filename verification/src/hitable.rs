//! The surface hierarchy: geometric primitives and combinators, as one
//! closed family, with exact intersection contracts.
//!
//! Every `hit` method is pinned to a spec function over the raw fixed-point
//! values: `spec_hit` gives, for each variant, precisely which record (if
//! any) comes back for a ray and parameter window.  Records are compared
//! through the ghost view `HitRec`, whose fields are unbounded integers.

use crate::aabb::{aabb_hit_spec, Aabb};
use crate::fx::{fx_add, fx_div, fx_mul, fx_neg, fx_sqrt, fx_sub, Fx, SCALE};
use crate::material::Material;
use crate::ray::Ray;
use crate::texture::{SolidTexture, Texture};
use crate::trig::{fx_asin, fx_atan2, HALF_PI, PI, TWO_PI};
use crate::vec3::{v3add, v3div_s, v3dot, v3neg, v3scale, v3sub, Vec3};
use std::rc::Rc;
use vstd::prelude::*;

verus! {

/// Ghost view of a hit record: raw values as unbounded integers.
pub struct HitRec {
    pub u: int,
    pub v: int,
    pub t: int,
    pub p: (int, int, int),
    pub normal: (int, int, int),
    pub material: Rc<Material>,
}

/// One intersection: parameter, point, outward unit normal, texture
/// coordinates, and the material met.
#[derive(Debug)]
pub struct HitRecord {
    pub u: Fx,
    pub v: Fx,
    pub t: Fx,
    pub p: Vec3,
    pub normal: Vec3,
    pub material: Rc<Material>,
}

impl HitRecord {
    pub open spec fn rv(self) -> HitRec {
        HitRec {
            u: self.u.raw as int,
            v: self.v.raw as int,
            t: self.t.raw as int,
            p: self.p.v(),
            normal: self.normal.v(),
            material: self.material,
        }
    }

    /// A fresh record: zeroes, with a black diffuse placeholder material.
    pub fn new() -> (r: HitRecord)
        ensures
            r.u.raw == 0,
            r.v.raw == 0,
            r.t.raw == 0,
            r.p.v() == (0int, 0int, 0int),
            r.normal.v() == (0int, 0int, 0int),
    {
        HitRecord {
            u: Fx::zero(),
            v: Fx::zero(),
            t: Fx::zero(),
            p: Vec3::new(),
            normal: Vec3::new(),
            material: Rc::new(
                Material::Lambertian(
                    crate::material::Lambertian {
                        albedo: Texture::Solid(SolidTexture { color: Vec3::new() }),
                    },
                ),
            ),
        }
    }

    /// Copy every field of `rhs` into `self`.
    pub fn update(&mut self, rhs: &HitRecord)
        ensures
            final(self).rv() == rhs.rv(),
    {
        self.t = rhs.t;
        self.p = rhs.p;
        self.u = rhs.u;
        self.v = rhs.v;
        self.normal = rhs.normal;
        self.material = crate::rc_clone(&rhs.material);
    }
}

pub open spec fn orv(o: Option<HitRecord>) -> Option<HitRec> {
    match o {
        Some(r) => Some(r.rv()),
        None => None,
    }
}

/// `origin + t * direction` over raw triples.
pub open spec fn ray_at(r: Ray, t: int) -> (int, int, int) {
    v3add(r.origin.v(), v3scale(t, r.direction.v()))
}

/// Spherical texture coordinates of a point on the unit sphere.
pub open spec fn sphere_uv(p: (int, int, int)) -> (int, int) {
    let phi = fx_atan2(p.2, p.0);
    let theta = fx_asin(p.1);
    (
        fx_sub(SCALE as int, fx_div(fx_add(phi, PI as int), TWO_PI as int)),
        fx_div(fx_add(theta, HALF_PI as int), PI as int),
    )
}

#[derive(Debug)]
pub enum Hitable {
    Sphere(Sphere),
    MovingSphere(MovingSphere),
    RectXy(RectSliceXy),
    RectXz(RectSliceXz),
    RectYz(RectSliceYz),
    Flip(FlipNormals),
    BoxObj(BoxObject),
    List(HitableList),
    Bvh(crate::bvh::BvhNode),
}

#[derive(Debug)]
pub struct Sphere {
    pub center: Vec3,
    pub radius: Fx,
    pub material: Rc<Material>,
}

/// A sphere whose center moves linearly between two keyframes over
/// `[time0, time1]`.
#[derive(Debug)]
pub struct MovingSphere {
    pub centers: (Vec3, Vec3),
    pub time0: Fx,
    pub time1: Fx,
    pub radius: Fx,
    pub material: Rc<Material>,
}

/// Axis-aligned panel in the plane `z == k`.
#[derive(Debug)]
pub struct RectSliceXy {
    pub material: Rc<Material>,
    pub x0: Fx,
    pub x1: Fx,
    pub y0: Fx,
    pub y1: Fx,
    pub k: Fx,
}

/// Axis-aligned panel in the plane `y == k`.
#[derive(Debug)]
pub struct RectSliceXz {
    pub material: Rc<Material>,
    pub x0: Fx,
    pub x1: Fx,
    pub z0: Fx,
    pub z1: Fx,
    pub k: Fx,
}

/// Axis-aligned panel in the plane `x == k`.
#[derive(Debug)]
pub struct RectSliceYz {
    pub material: Rc<Material>,
    pub y0: Fx,
    pub y1: Fx,
    pub z0: Fx,
    pub z1: Fx,
    pub k: Fx,
}

/// Decorator that negates the child's reported normal.
#[derive(Debug)]
pub struct FlipNormals {
    pub child: Box<Hitable>,
}

/// Six panels forming an axis-aligned box between corners `p0` and `p1`.
#[derive(Debug)]
pub struct BoxObject {
    pub p0: Vec3,
    pub p1: Vec3,
    pub hitlist: HitableList,
}

/// A linear aggregate, scanned in order with a shrinking window so the
/// nearest hit wins.
#[derive(Debug)]
pub struct HitableList {
    pub list: Vec<Hitable>,
}

/// The record a sphere with the given center/radius/material reports at
/// parameter `t`.
#[verifier::opaque]
pub open spec fn sphere_rec(
    center: (int, int, int),
    radius: int,
    material: Rc<Material>,
    r: Ray,
    t: int,
) -> HitRec {
    let p = ray_at(r, t);
    let n = v3div_s(v3sub(p, center), radius);
    let uv = sphere_uv(n);
    HitRec { u: uv.0, v: uv.1, t, p, normal: n, material }
}

/// The quadratic sphere intersection: nearer root first, each tested
/// strictly inside the window.
pub open spec fn sphere_hit_at(
    center: (int, int, int),
    radius: int,
    material: Rc<Material>,
    r: Ray,
    t_min: int,
    t_max: int,
) -> Option<HitRec> {
    let oc = v3sub(r.origin.v(), center);
    let a = v3dot(r.direction.v(), r.direction.v());
    let b = v3dot(oc, r.direction.v());
    let c = fx_sub(v3dot(oc, oc), fx_mul(radius, radius));
    let d = fx_sub(fx_mul(b, b), fx_mul(a, c));
    if d > 0 {
        let sq = fx_sqrt(d);
        let t1 = fx_div(fx_sub(fx_neg(b), sq), a);
        let t2 = fx_div(fx_add(fx_neg(b), sq), a);
        if t_min < t1 && t1 < t_max {
            Some(sphere_rec(center, radius, material, r, t1))
        } else if t_min < t2 && t2 < t_max {
            Some(sphere_rec(center, radius, material, r, t2))
        } else {
            None
        }
    } else {
        None
    }
}

/// The discriminant of the sphere quadratic, in fixed point.
pub open spec fn sphere_disc(center: (int, int, int), radius: int, r: Ray) -> int {
    let oc = v3sub(r.origin.v(), center);
    let a = v3dot(r.direction.v(), r.direction.v());
    let b = v3dot(oc, r.direction.v());
    let c = fx_sub(v3dot(oc, oc), fx_mul(radius, radius));
    fx_sub(fx_mul(b, b), fx_mul(a, c))
}

/// The nearer quadratic root `(-b - sqrt(d)) / a`.
pub open spec fn sphere_near_root(center: (int, int, int), radius: int, r: Ray) -> int {
    let oc = v3sub(r.origin.v(), center);
    let a = v3dot(r.direction.v(), r.direction.v());
    let b = v3dot(oc, r.direction.v());
    fx_div(fx_sub(fx_neg(b), fx_sqrt(sphere_disc(center, radius, r))), a)
}

/// When the nearer root lies strictly inside the window (in particular,
/// whenever both roots do), the sphere reports exactly that root, with the
/// normal `(p - center) / radius` at the reported point.
pub proof fn lemma_sphere_reports_nearest(
    center: (int, int, int),
    radius: int,
    material: Rc<Material>,
    r: Ray,
    t_min: int,
    t_max: int,
)
    requires
        sphere_disc(center, radius, r) > 0,
        t_min < sphere_near_root(center, radius, r),
        sphere_near_root(center, radius, r) < t_max,
    ensures
        sphere_hit_at(center, radius, material, r, t_min, t_max) == Some(
            sphere_rec(center, radius, material, r, sphere_near_root(center, radius, r)),
        ),
        (match sphere_hit_at(center, radius, material, r, t_min, t_max) {
            Some(rec) => rec.t == sphere_near_root(center, radius, r) && rec.normal == v3div_s(
                v3sub(ray_at(r, rec.t), center),
                radius,
            ) && rec.p == ray_at(r, rec.t),
            None => false,
        }),
{
    reveal(sphere_rec);
}

/// Center of a moving sphere at a ray time.
pub open spec fn moving_center(m: MovingSphere, time: int) -> (int, int, int) {
    v3add(
        m.centers.0.v(),
        v3scale(
            fx_div(fx_sub(time, m.time0.raw as int), fx_sub(m.time1.raw as int, m.time0.raw as int)),
            v3sub(m.centers.1.v(), m.centers.0.v()),
        ),
    )
}

/// Panel intersection in the plane `z == k` (the other two orientations
/// permute coordinates the same way); the hit must lie strictly inside the
/// parameter window.
pub open spec fn rect_xy_hit(q: RectSliceXy, r: Ray, t_min: int, t_max: int) -> Option<HitRec> {
    let t = fx_div(fx_sub(q.k.raw as int, r.origin.z.raw as int), r.direction.z.raw as int);
    if t <= t_min || t >= t_max {
        None
    } else {
        let x = fx_add(r.origin.x.raw as int, fx_mul(t, r.direction.x.raw as int));
        let y = fx_add(r.origin.y.raw as int, fx_mul(t, r.direction.y.raw as int));
        if x < q.x0.raw as int || x > q.x1.raw as int || y < q.y0.raw as int || y > q.y1.raw as int {
            None
        } else {
            Some(
                HitRec {
                    u: fx_div(fx_sub(x, q.x0.raw as int), fx_sub(q.x1.raw as int, q.x0.raw as int)),
                    v: fx_div(fx_sub(y, q.y0.raw as int), fx_sub(q.y1.raw as int, q.y0.raw as int)),
                    t,
                    p: ray_at(r, t),
                    normal: (0, 0, SCALE as int),
                    material: q.material,
                },
            )
        }
    }
}

pub open spec fn rect_xz_hit(q: RectSliceXz, r: Ray, t_min: int, t_max: int) -> Option<HitRec> {
    let t = fx_div(fx_sub(q.k.raw as int, r.origin.y.raw as int), r.direction.y.raw as int);
    if t <= t_min || t >= t_max {
        None
    } else {
        let x = fx_add(r.origin.x.raw as int, fx_mul(t, r.direction.x.raw as int));
        let z = fx_add(r.origin.z.raw as int, fx_mul(t, r.direction.z.raw as int));
        if x < q.x0.raw as int || x > q.x1.raw as int || z < q.z0.raw as int || z > q.z1.raw as int {
            None
        } else {
            Some(
                HitRec {
                    u: fx_div(fx_sub(x, q.x0.raw as int), fx_sub(q.x1.raw as int, q.x0.raw as int)),
                    v: fx_div(fx_sub(z, q.z0.raw as int), fx_sub(q.z1.raw as int, q.z0.raw as int)),
                    t,
                    p: ray_at(r, t),
                    normal: (0, SCALE as int, 0),
                    material: q.material,
                },
            )
        }
    }
}

pub open spec fn rect_yz_hit(q: RectSliceYz, r: Ray, t_min: int, t_max: int) -> Option<HitRec> {
    let t = fx_div(fx_sub(q.k.raw as int, r.origin.x.raw as int), r.direction.x.raw as int);
    if t <= t_min || t >= t_max {
        None
    } else {
        let y = fx_add(r.origin.y.raw as int, fx_mul(t, r.direction.y.raw as int));
        let z = fx_add(r.origin.z.raw as int, fx_mul(t, r.direction.z.raw as int));
        if z < q.z0.raw as int || z > q.z1.raw as int || y < q.y0.raw as int || y > q.y1.raw as int {
            None
        } else {
            Some(
                HitRec {
                    u: fx_div(fx_sub(y, q.y0.raw as int), fx_sub(q.y1.raw as int, q.y0.raw as int)),
                    v: fx_div(fx_sub(z, q.z0.raw as int), fx_sub(q.z1.raw as int, q.z0.raw as int)),
                    t,
                    p: ray_at(r, t),
                    normal: (SCALE as int, 0, 0),
                    material: q.material,
                },
            )
        }
    }
}

/// Negate a record's normal (the flip decorator).
pub open spec fn flip_rec(o: Option<HitRec>) -> Option<HitRec> {
    match o {
        Some(rec) => Some(HitRec { normal: v3neg(rec.normal), ..rec }),
        None => None,
    }
}

/// Nearest hit among the first `n` elements, scanning left to right with
/// the window's upper end shrinking to the closest hit so far.
pub open spec fn list_hit_prefix(s: Seq<Hitable>, n: int, r: Ray, t_min: int, t_max: int) -> Option<
    HitRec,
>
    decreases s, n, 1nat,
{
    if n <= 0 {
        None
    } else {
        let prev = list_hit_prefix(s, n - 1, r, t_min, t_max);
        let closest = match prev {
            Some(rec) => rec.t,
            None => t_max,
        };
        if 0 < n <= s.len() {
            match spec_hit(s[n - 1], r, t_min, closest) {
                Some(rec) => Some(rec),
                None => prev,
            }
        } else {
            prev
        }
    }
}

/// Which record (if any) each variant reports for `r` over the window.
pub open spec fn spec_hit(h: Hitable, r: Ray, t_min: int, t_max: int) -> Option<HitRec>
    decreases h, 0nat, 0nat,
{
    match h {
        Hitable::Sphere(s) => sphere_hit_at(
            s.center.v(),
            s.radius.raw as int,
            s.material,
            r,
            t_min,
            t_max,
        ),
        Hitable::MovingSphere(m) => sphere_hit_at(
            moving_center(m, r.time.raw as int),
            m.radius.raw as int,
            m.material,
            r,
            t_min,
            t_max,
        ),
        Hitable::RectXy(q) => rect_xy_hit(q, r, t_min, t_max),
        Hitable::RectXz(q) => rect_xz_hit(q, r, t_min, t_max),
        Hitable::RectYz(q) => rect_yz_hit(q, r, t_min, t_max),
        Hitable::Flip(f) => flip_rec(spec_hit(*f.child, r, t_min, t_max)),
        Hitable::BoxObj(b) => list_hit_prefix(
            b.hitlist.list@,
            b.hitlist.list@.len() as int,
            r,
            t_min,
            t_max,
        ),
        Hitable::List(l) => list_hit_prefix(l.list@, l.list@.len() as int, r, t_min, t_max),
        Hitable::Bvh(node) => bvh_hit_spec(node, r, t_min, t_max),
    }
}

/// BVH traversal: the node's box first, then both children over the full
/// window, returning the nearer record (the left child on ties).
pub open spec fn bvh_hit_spec(node: crate::bvh::BvhNode, r: Ray, t_min: int, t_max: int) -> Option<
    HitRec,
>
    decreases node, 1nat, 0nat,
{
    if aabb_hit_spec(node.bounding_box, r, t_min, t_max) {
        let left = spec_hit(*node.left, r, t_min, t_max);
        let right = spec_hit(*node.right, r, t_min, t_max);
        match (left, right) {
            (Some(lr), Some(rr)) => if lr.t <= rr.t {
                Some(lr)
            } else {
                Some(rr)
            },
            (Some(lr), None) => Some(lr),
            (None, Some(rr)) => Some(rr),
            (None, None) => None,
        }
    } else {
        None
    }
}

/// Componentwise union of two boxes as corner triples.
pub open spec fn sbox(
    a: ((int, int, int), (int, int, int)),
    b: ((int, int, int), (int, int, int)),
) -> ((int, int, int), (int, int, int)) {
    (
        (
            crate::fx::fx_min(a.0.0, b.0.0),
            crate::fx::fx_min(a.0.1, b.0.1),
            crate::fx::fx_min(a.0.2, b.0.2),
        ),
        (
            crate::fx::fx_max(a.1.0, b.1.0),
            crate::fx::fx_max(a.1.1, b.1.1),
            crate::fx::fx_max(a.1.2, b.1.2),
        ),
    )
}

/// Corner-triple view of a box.
pub open spec fn bv(bb: Aabb) -> ((int, int, int), (int, int, int)) {
    (bb.min.v(), bb.max.v())
}

pub open spec fn obv(o: Option<Aabb>) -> Option<((int, int, int), (int, int, int))> {
    match o {
        Some(bb) => Some(bv(bb)),
        None => None,
    }
}

/// The box of a sphere of the given center and radius.
pub open spec fn sphere_box(center: (int, int, int), radius: int) -> (
    (int, int, int),
    (int, int, int),
) {
    (v3sub(center, (radius, radius, radius)), v3add(center, (radius, radius, radius)))
}

/// Union of the boxes of the first `n` elements; `None` once any element
/// has no box, and for the empty aggregate.
pub open spec fn list_bbox_prefix(s: Seq<Hitable>, n: int, t0: int, t1: int) -> Option<
    ((int, int, int), (int, int, int)),
>
    decreases s, n, 1nat,
{
    if n <= 0 {
        None
    } else if n == 1 {
        if s.len() >= 1 {
            spec_bbox(s[0], t0, t1)
        } else {
            None
        }
    } else {
        let prev = list_bbox_prefix(s, n - 1, t0, t1);
        if 0 < n <= s.len() {
            match (prev, spec_bbox(s[n - 1], t0, t1)) {
                (Some(a), Some(b)) => Some(sbox(a, b)),
                _ => None,
            }
        } else {
            None
        }
    }
}

/// The conservative box each variant reports for the time window.
pub open spec fn spec_bbox(h: Hitable, t0: int, t1: int) -> Option<
    ((int, int, int), (int, int, int)),
>
    decreases h, 0nat, 0nat,
{
    match h {
        Hitable::Sphere(s) => Some(sphere_box(s.center.v(), s.radius.raw as int)),
        Hitable::MovingSphere(m) => Some(
            sbox(
                sphere_box(moving_center(m, t0), m.radius.raw as int),
                sphere_box(moving_center(m, t1), m.radius.raw as int),
            ),
        ),
        Hitable::RectXy(q) => Some(
            (
                (q.x0.raw as int, q.y0.raw as int, fx_sub(q.k.raw as int, 7)),
                (q.x1.raw as int, q.y1.raw as int, fx_add(q.k.raw as int, 7)),
            ),
        ),
        Hitable::RectXz(q) => Some(
            (
                (q.x0.raw as int, fx_sub(q.k.raw as int, 7), q.z0.raw as int),
                (q.x1.raw as int, fx_add(q.k.raw as int, 7), q.z1.raw as int),
            ),
        ),
        Hitable::RectYz(q) => Some(
            (
                (fx_sub(q.k.raw as int, 7), q.y0.raw as int, q.z0.raw as int),
                (fx_add(q.k.raw as int, 7), q.y1.raw as int, q.z1.raw as int),
            ),
        ),
        Hitable::Flip(f) => spec_bbox(*f.child, t0, t1),
        Hitable::BoxObj(b) => Some((b.p0.v(), b.p1.v())),
        Hitable::List(l) => list_bbox_prefix(l.list@, l.list@.len() as int, t0, t1),
        Hitable::Bvh(node) => Some(bv(node.bounding_box)),
    }
}

/// Componentwise union of two boxes: min of the minima, max of the maxima.
pub fn surrounding_box(box0: &Aabb, box1: &Aabb) -> (r: Aabb)
    ensures
        bv(r) == sbox(bv(*box0), bv(*box1)),
{
    let small = Vec3 {
        x: box0.min.x.min(box1.min.x),
        y: box0.min.y.min(box1.min.y),
        z: box0.min.z.min(box1.min.z),
    };
    let big = Vec3 {
        x: box0.max.x.max(box1.max.x),
        y: box0.max.y.max(box1.max.y),
        z: box0.max.z.max(box1.max.z),
    };
    Aabb::new(small, big)
}

/// The union box contains both arguments entirely: its minimum is below
/// either minimum and its maximum above either maximum, on every axis.
pub proof fn lemma_surrounding_box_contains(
    a: ((int, int, int), (int, int, int)),
    b: ((int, int, int), (int, int, int)),
)
    ensures
        sbox(a, b).0.0 <= a.0.0 && sbox(a, b).0.0 <= b.0.0,
        sbox(a, b).0.1 <= a.0.1 && sbox(a, b).0.1 <= b.0.1,
        sbox(a, b).0.2 <= a.0.2 && sbox(a, b).0.2 <= b.0.2,
        sbox(a, b).1.0 >= a.1.0 && sbox(a, b).1.0 >= b.1.0,
        sbox(a, b).1.1 >= a.1.1 && sbox(a, b).1.1 >= b.1.1,
        sbox(a, b).1.2 >= a.1.2 && sbox(a, b).1.2 >= b.1.2,
{
}

impl Sphere {
    pub fn with_values(center: Vec3, radius: Fx, material: Rc<Material>) -> (s: Self)
        ensures
            s.center == center,
            s.radius == radius,
            s.material == material,
    {
        Sphere { center, radius, material }
    }

    /// Texture coordinates of a point on the unit sphere about the origin.
    pub fn get_sphere_uv(p: Vec3) -> (uv: (Fx, Fx))
        ensures
            (uv.0.raw as int, uv.1.raw as int) == sphere_uv(p.v()),
    {
        let phi = crate::trig::atan2(p.z, p.x);
        let theta = crate::trig::asin(p.y);
        let u = Fx { raw: SCALE }.sub(phi.add(Fx { raw: PI }).div(Fx { raw: TWO_PI }));
        let v = theta.add(Fx { raw: HALF_PI }).div(Fx { raw: PI });
        (u, v)
    }

    pub fn hit(&self, r: &Ray, t_min: Fx, t_max: Fx) -> (res: Option<HitRecord>)
        ensures
            orv(res) == sphere_hit_at(
                self.center.v(),
                self.radius.raw as int,
                self.material,
                *r,
                t_min.raw as int,
                t_max.raw as int,
            ),
    {
        sphere_hit_exec(self.center, self.radius, &self.material, r, t_min, t_max)
    }

    pub fn bounding_box(&self, t0: Fx, t1: Fx) -> (res: Option<Aabb>)
        ensures
            obv(res) == Some(sphere_box(self.center.v(), self.radius.raw as int)),
    {
        let rv3 = Vec3 { x: self.radius, y: self.radius, z: self.radius };
        Some(Aabb::new(self.center.sub(rv3), self.center.add(rv3)))
    }
}

/// Shared quadratic intersection for spheres at a known center.
fn sphere_hit_exec(
    center: Vec3,
    radius: Fx,
    material: &Rc<Material>,
    r: &Ray,
    t_min: Fx,
    t_max: Fx,
) -> (res: Option<HitRecord>)
    ensures
        orv(res) == sphere_hit_at(
            center.v(),
            radius.raw as int,
            *material,
            *r,
            t_min.raw as int,
            t_max.raw as int,
        ),
{
    let oc = r.origin().sub(center);
    let a = r.direction().dot(r.direction());
    let b = oc.dot(r.direction());
    let c = oc.dot(oc).sub(radius.mul(radius));
    let d = b.mul(b).sub(a.mul(c));

    if d.raw > 0 {
        let sq = d.sqrt();
        let t1 = b.neg().sub(sq).div(a);
        if t_min.raw < t1.raw && t1.raw < t_max.raw {
            return Some(sphere_record(center, radius, material, r, t1));
        }
        let t2 = b.neg().add(sq).div(a);
        if t_min.raw < t2.raw && t2.raw < t_max.raw {
            return Some(sphere_record(center, radius, material, r, t2));
        }
        None
    } else {
        None
    }
}

fn sphere_record(center: Vec3, radius: Fx, material: &Rc<Material>, r: &Ray, t: Fx) -> (rec:
    HitRecord)
    ensures
        rec.rv() == sphere_rec(center.v(), radius.raw as int, *material, *r, t.raw as int),
{
    proof {
        reveal(crate::hitable::sphere_rec);
    }
    let p = r.point_at_param(t);
    let n = p.sub(center).div_s(radius);
    let (u, v) = Sphere::get_sphere_uv(n);
    HitRecord { u, v, t, p, normal: n, material: crate::rc_clone(material) }
}

impl MovingSphere {
    pub fn with_values(
        centers: (Vec3, Vec3),
        time0: Fx,
        time1: Fx,
        radius: Fx,
        material: Rc<Material>,
    ) -> (s: Self)
        ensures
            s.centers == centers,
            s.time0 == time0,
            s.time1 == time1,
            s.radius == radius,
            s.material == material,
    {
        MovingSphere { centers, time0, time1, radius, material }
    }

    /// Linearly interpolated center at a time.
    pub fn center(&self, time: Fx) -> (c: Vec3)
        ensures
            c.v() == moving_center(*self, time.raw as int),
    {
        let frac = time.sub(self.time0).div(self.time1.sub(self.time0));
        self.centers.0.add(self.centers.1.sub(self.centers.0).scale(frac))
    }

    pub fn hit(&self, r: &Ray, t_min: Fx, t_max: Fx) -> (res: Option<HitRecord>)
        ensures
            orv(res) == sphere_hit_at(
                moving_center(*self, r.time.raw as int),
                self.radius.raw as int,
                self.material,
                *r,
                t_min.raw as int,
                t_max.raw as int,
            ),
    {
        let c = self.center(r.time());
        sphere_hit_exec(c, self.radius, &self.material, r, t_min, t_max)
    }

    pub fn bounding_box(&self, t0: Fx, t1: Fx) -> (res: Option<Aabb>)
        ensures
            obv(res) == Some(
                sbox(
                    sphere_box(moving_center(*self, t0.raw as int), self.radius.raw as int),
                    sphere_box(moving_center(*self, t1.raw as int), self.radius.raw as int),
                ),
            ),
    {
        let rv3 = Vec3 { x: self.radius, y: self.radius, z: self.radius };
        let c0 = self.center(t0);
        let c1 = self.center(t1);
        let box0 = Aabb::new(c0.sub(rv3), c0.add(rv3));
        let box1 = Aabb::new(c1.sub(rv3), c1.add(rv3));
        Some(surrounding_box(&box0, &box1))
    }
}

impl RectSliceXy {
    pub fn new(material: Rc<Material>, params: (Fx, Fx, Fx, Fx, Fx)) -> (q: Self)
        ensures
            q == (RectSliceXy {
                material,
                x0: params.0,
                x1: params.1,
                y0: params.2,
                y1: params.3,
                k: params.4,
            }),
    {
        let (x0, x1, y0, y1, k) = params;
        RectSliceXy { material, x0, x1, y0, y1, k }
    }

    pub fn hit(&self, r: &Ray, t_min: Fx, t_max: Fx) -> (res: Option<HitRecord>)
        ensures
            orv(res) == rect_xy_hit(*self, *r, t_min.raw as int, t_max.raw as int),
    {
        let t = self.k.sub(r.origin().z).div(r.direction().z);
        if t.raw <= t_min.raw || t.raw >= t_max.raw {
            return None;
        }
        let x = r.origin().x.add(t.mul(r.direction().x));
        let y = r.origin().y.add(t.mul(r.direction().y));
        if x.raw < self.x0.raw || x.raw > self.x1.raw || y.raw < self.y0.raw || y.raw
            > self.y1.raw {
            return None;
        }
        Some(
            HitRecord {
                u: x.sub(self.x0).div(self.x1.sub(self.x0)),
                v: y.sub(self.y0).div(self.y1.sub(self.y0)),
                t,
                p: r.point_at_param(t),
                normal: Vec3 { x: Fx::zero(), y: Fx::zero(), z: Fx { raw: SCALE } },
                material: crate::rc_clone(&self.material),
            },
        )
    }

    pub fn bounding_box(&self, t0: Fx, t1: Fx) -> (res: Option<Aabb>)
        ensures
            obv(res) == spec_bbox(Hitable::RectXy(*self), t0.raw as int, t1.raw as int),
    {
        Some(
            Aabb::new(
                Vec3 { x: self.x0, y: self.y0, z: self.k.sub(Fx { raw: 7 }) },
                Vec3 { x: self.x1, y: self.y1, z: self.k.add(Fx { raw: 7 }) },
            ),
        )
    }
}

impl RectSliceXz {
    pub fn new(material: Rc<Material>, params: (Fx, Fx, Fx, Fx, Fx)) -> (q: Self)
        ensures
            q == (RectSliceXz {
                material,
                x0: params.0,
                x1: params.1,
                z0: params.2,
                z1: params.3,
                k: params.4,
            }),
    {
        let (x0, x1, z0, z1, k) = params;
        RectSliceXz { material, x0, x1, z0, z1, k }
    }

    pub fn hit(&self, r: &Ray, t_min: Fx, t_max: Fx) -> (res: Option<HitRecord>)
        ensures
            orv(res) == rect_xz_hit(*self, *r, t_min.raw as int, t_max.raw as int),
    {
        let t = self.k.sub(r.origin().y).div(r.direction().y);
        if t.raw <= t_min.raw || t.raw >= t_max.raw {
            return None;
        }
        let x = r.origin().x.add(t.mul(r.direction().x));
        let z = r.origin().z.add(t.mul(r.direction().z));
        if x.raw < self.x0.raw || x.raw > self.x1.raw || z.raw < self.z0.raw || z.raw
            > self.z1.raw {
            return None;
        }
        Some(
            HitRecord {
                u: x.sub(self.x0).div(self.x1.sub(self.x0)),
                v: z.sub(self.z0).div(self.z1.sub(self.z0)),
                t,
                p: r.point_at_param(t),
                normal: Vec3 { x: Fx::zero(), y: Fx { raw: SCALE }, z: Fx::zero() },
                material: crate::rc_clone(&self.material),
            },
        )
    }

    pub fn bounding_box(&self, t0: Fx, t1: Fx) -> (res: Option<Aabb>)
        ensures
            obv(res) == spec_bbox(Hitable::RectXz(*self), t0.raw as int, t1.raw as int),
    {
        Some(
            Aabb::new(
                Vec3 { x: self.x0, y: self.k.sub(Fx { raw: 7 }), z: self.z0 },
                Vec3 { x: self.x1, y: self.k.add(Fx { raw: 7 }), z: self.z1 },
            ),
        )
    }
}

impl RectSliceYz {
    pub fn new(material: Rc<Material>, params: (Fx, Fx, Fx, Fx, Fx)) -> (q: Self)
        ensures
            q == (RectSliceYz {
                material,
                y0: params.0,
                y1: params.1,
                z0: params.2,
                z1: params.3,
                k: params.4,
            }),
    {
        let (y0, y1, z0, z1, k) = params;
        RectSliceYz { material, y0, y1, z0, z1, k }
    }

    pub fn hit(&self, r: &Ray, t_min: Fx, t_max: Fx) -> (res: Option<HitRecord>)
        ensures
            orv(res) == rect_yz_hit(*self, *r, t_min.raw as int, t_max.raw as int),
    {
        let t = self.k.sub(r.origin().x).div(r.direction().x);
        if t.raw <= t_min.raw || t.raw >= t_max.raw {
            return None;
        }
        let y = r.origin().y.add(t.mul(r.direction().y));
        let z = r.origin().z.add(t.mul(r.direction().z));
        if z.raw < self.z0.raw || z.raw > self.z1.raw || y.raw < self.y0.raw || y.raw
            > self.y1.raw {
            return None;
        }
        Some(
            HitRecord {
                u: y.sub(self.y0).div(self.y1.sub(self.y0)),
                v: z.sub(self.z0).div(self.z1.sub(self.z0)),
                t,
                p: r.point_at_param(t),
                normal: Vec3 { x: Fx { raw: SCALE }, y: Fx::zero(), z: Fx::zero() },
                material: crate::rc_clone(&self.material),
            },
        )
    }

    pub fn bounding_box(&self, t0: Fx, t1: Fx) -> (res: Option<Aabb>)
        ensures
            obv(res) == spec_bbox(Hitable::RectYz(*self), t0.raw as int, t1.raw as int),
    {
        Some(
            Aabb::new(
                Vec3 { x: self.k.sub(Fx { raw: 7 }), y: self.y0, z: self.z0 },
                Vec3 { x: self.k.add(Fx { raw: 7 }), y: self.y1, z: self.z1 },
            ),
        )
    }
}

impl FlipNormals {
    pub fn new(child: Box<Hitable>) -> (f: Self)
        ensures
            f.child == child,
    {
        FlipNormals { child }
    }
}

impl HitableList {
    pub fn new() -> (l: Self)
        ensures
            l.list@.len() == 0,
    {
        HitableList { list: Vec::new() }
    }

    pub fn put(&mut self, object: Hitable)
        ensures
            final(self).list@ == old(self).list@.push(object),
    {
        self.list.push(object);
    }

    /// Nearest hit among the children: scan in order, shrinking the window
    /// to the closest hit found so far.
    pub fn hit(&self, r: &Ray, t_min: Fx, t_max: Fx) -> (res: Option<HitRecord>)
        ensures
            orv(res) == list_hit_prefix(
                self.list@,
                self.list@.len() as int,
                *r,
                t_min.raw as int,
                t_max.raw as int,
            ),
        decreases self.list@, 0nat, 1nat,
    {
        let mut best: Option<HitRecord> = None;
        let mut i: usize = 0;
        while i < self.list.len()
            invariant
                i <= self.list@.len(),
                orv(best) == list_hit_prefix(
                    self.list@,
                    i as int,
                    *r,
                    t_min.raw as int,
                    t_max.raw as int,
                ),
            decreases self.list@.len() - i,
        {
            let closest = match &best {
                Some(rec) => rec.t,
                None => t_max,
            };
            proof {
                assert(decreases_to!(self.list@, 0nat, 1nat => self.list@[i as int], 0nat, 0nat));
            }
            let child_hit = self.list[i].hit(r, t_min, closest);
            match child_hit {
                Some(rec) => {
                    best = Some(rec);
                },
                None => {},
            }
            i = i + 1;
        }
        best
    }

    pub fn bounding_box(&self, t0: Fx, t1: Fx) -> (res: Option<Aabb>)
        ensures
            obv(res) == list_bbox_prefix(
                self.list@,
                self.list@.len() as int,
                t0.raw as int,
                t1.raw as int,
            ),
        decreases self.list@, 0nat, 1nat,
    {
        if self.list.len() == 0 {
            return None;
        }
        proof {
            assert(decreases_to!(self.list@, 0nat, 1nat => self.list@[0], 0nat, 0nat));
        }
        let mut acc: Option<Aabb> = self.list[0].bounding_box(t0, t1);
        let mut i: usize = 1;
        while i < self.list.len()
            invariant
                1 <= i <= self.list@.len(),
                obv(acc) == list_bbox_prefix(self.list@, i as int, t0.raw as int, t1.raw as int),
            decreases self.list@.len() - i,
        {
            proof {
                assert(decreases_to!(self.list@, 0nat, 1nat => self.list@[i as int], 0nat, 0nat));
            }
            let child_box = self.list[i].bounding_box(t0, t1);
            acc = match (acc, child_box) {
                (Some(a), Some(b)) => Some(surrounding_box(&a, &b)),
                _ => None,
            };
            i = i + 1;
        }
        acc
    }
}

/// The six panels of an axis-aligned box between `p0` and `p1`, three of
/// them flipped to face inward.
pub open spec fn box_panels(p0: Vec3, p1: Vec3, material: Rc<Material>) -> Seq<Hitable> {
    seq![
        Hitable::RectXy(
            RectSliceXy { material: material, x0: p0.x, x1: p1.x, y0: p0.y, y1: p1.y, k: p1.z },
        ),
        Hitable::Flip(
            FlipNormals {
                child: Box::new(
                    Hitable::RectXy(
                        RectSliceXy {
                            material: material,
                            x0: p0.x,
                            x1: p1.x,
                            y0: p0.y,
                            y1: p1.y,
                            k: p0.z,
                        },
                    ),
                ),
            },
        ),
        Hitable::RectXz(
            RectSliceXz { material: material, x0: p0.x, x1: p1.x, z0: p0.z, z1: p1.z, k: p1.y },
        ),
        Hitable::Flip(
            FlipNormals {
                child: Box::new(
                    Hitable::RectXz(
                        RectSliceXz {
                            material: material,
                            x0: p0.x,
                            x1: p1.x,
                            z0: p0.z,
                            z1: p1.z,
                            k: p0.y,
                        },
                    ),
                ),
            },
        ),
        Hitable::RectYz(
            RectSliceYz { material: material, y0: p0.y, y1: p1.y, z0: p0.z, z1: p1.z, k: p1.x },
        ),
        Hitable::Flip(
            FlipNormals {
                child: Box::new(
                    Hitable::RectYz(
                        RectSliceYz {
                            material: material,
                            y0: p0.y,
                            y1: p1.y,
                            z0: p0.z,
                            z1: p1.z,
                            k: p0.x,
                        },
                    ),
                ),
            },
        ),
    ]
}

impl BoxObject {
    /// Six panels between the corners, three of them flipped inward.
    pub fn new(p0: Vec3, p1: Vec3, material: Rc<Material>) -> (b: Self)
        ensures
            b.p0 == p0,
            b.p1 == p1,
            b.hitlist.list@ =~= box_panels(p0, p1, material),
    {
        let mut hitlist = HitableList::new();
        hitlist.put(
            Hitable::RectXy(
                RectSliceXy::new(crate::rc_clone(&material), (p0.x, p1.x, p0.y, p1.y, p1.z)),
            ),
        );
        hitlist.put(
            Hitable::Flip(
                FlipNormals::new(
                    Box::new(
                        Hitable::RectXy(
                            RectSliceXy::new(crate::rc_clone(&material), (p0.x, p1.x, p0.y, p1.y, p0.z)),
                        ),
                    ),
                ),
            ),
        );
        hitlist.put(
            Hitable::RectXz(
                RectSliceXz::new(crate::rc_clone(&material), (p0.x, p1.x, p0.z, p1.z, p1.y)),
            ),
        );
        hitlist.put(
            Hitable::Flip(
                FlipNormals::new(
                    Box::new(
                        Hitable::RectXz(
                            RectSliceXz::new(crate::rc_clone(&material), (p0.x, p1.x, p0.z, p1.z, p0.y)),
                        ),
                    ),
                ),
            ),
        );
        hitlist.put(
            Hitable::RectYz(
                RectSliceYz::new(crate::rc_clone(&material), (p0.y, p1.y, p0.z, p1.z, p1.x)),
            ),
        );
        hitlist.put(
            Hitable::Flip(
                FlipNormals::new(
                    Box::new(
                        Hitable::RectYz(
                            RectSliceYz::new(crate::rc_clone(&material), (p0.y, p1.y, p0.z, p1.z, p0.x)),
                        ),
                    ),
                ),
            ),
        );
        BoxObject { p0, p1, hitlist }
    }
}

impl Hitable {
    /// Nearest hit of this node over the open window.
    pub fn hit(&self, r: &Ray, t_min: Fx, t_max: Fx) -> (res: Option<HitRecord>)
        ensures
            orv(res) == spec_hit(*self, *r, t_min.raw as int, t_max.raw as int),
        decreases *self, 1nat, 0nat,
    {
        match self {
            Hitable::Sphere(s) => s.hit(r, t_min, t_max),
            Hitable::MovingSphere(m) => m.hit(r, t_min, t_max),
            Hitable::RectXy(q) => q.hit(r, t_min, t_max),
            Hitable::RectXz(q) => q.hit(r, t_min, t_max),
            Hitable::RectYz(q) => q.hit(r, t_min, t_max),
            Hitable::Flip(f) => {
                match f.child.hit(r, t_min, t_max) {
                    Some(rec) => Some(
                        HitRecord {
                            u: rec.u,
                            v: rec.v,
                            t: rec.t,
                            p: rec.p,
                            normal: rec.normal.neg(),
                            material: rec.material,
                        },
                    ),
                    None => None,
                }
            },
            Hitable::BoxObj(b) => b.hitlist.hit(r, t_min, t_max),
            Hitable::List(l) => l.hit(r, t_min, t_max),
            Hitable::Bvh(node) => node.hit(r, t_min, t_max),
        }
    }

    /// Conservative bounding box over the time window, if one exists.
    pub fn bounding_box(&self, t0: Fx, t1: Fx) -> (res: Option<Aabb>)
        ensures
            obv(res) == spec_bbox(*self, t0.raw as int, t1.raw as int),
        decreases *self, 1nat, 0nat,
    {
        match self {
            Hitable::Sphere(s) => s.bounding_box(t0, t1),
            Hitable::MovingSphere(m) => m.bounding_box(t0, t1),
            Hitable::RectXy(q) => q.bounding_box(t0, t1),
            Hitable::RectXz(q) => q.bounding_box(t0, t1),
            Hitable::RectYz(q) => q.bounding_box(t0, t1),
            Hitable::Flip(f) => f.child.bounding_box(t0, t1),
            Hitable::BoxObj(b) => Some(Aabb::new(b.p0, b.p1)),
            Hitable::List(l) => l.bounding_box(t0, t1),
            Hitable::Bvh(node) => Some(node.bounding_box.clone()),
        }
    }
}

} // verus!
