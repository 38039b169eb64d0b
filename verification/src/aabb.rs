//! Axis-aligned bounding boxes and the slab intersection test.
//!
//! The test runs one axis at a time, narrowing a running parameter interval;
//! the box is missed as soon as the interval becomes empty.  A zero direction
//! component divides by zero, which in the saturating arithmetic yields the
//! extreme raw values — the fixed-point counterpart of the IEEE infinities —
//! so an axis-aligned ray whose origin lies inside the slab leaves the
//! interval untouched (proved below as `lemma_parallel_inside_unbounded`).

use crate::fx::{fx_div, fx_max, fx_min, fx_sub, Fx, RAW_MAX};
use crate::ray::Ray;
use crate::vec3::Vec3;
use vstd::prelude::*;

verus! {

/// Entry/exit parameters of one slab, sorted so that the first is the entry.
pub open spec fn slab(minc: int, maxc: int, oc: int, dc: int) -> (int, int) {
    let ta = fx_div(fx_sub(minc, oc), dc);
    let tb = fx_div(fx_sub(maxc, oc), dc);
    (fx_min(ta, tb), fx_max(ta, tb))
}

/// Intersect the running parameter interval with one slab's interval.
pub open spec fn slab_step(minc: int, maxc: int, oc: int, dc: int, bounds: (int, int)) -> (
    int,
    int,
) {
    let s = slab(minc, maxc, oc, dc);
    (fx_max(s.0, bounds.0), fx_min(s.1, bounds.1))
}

/// The whole slab test: true iff the interval is still nonempty after all
/// three axes (checked after each axis, as the executable loop does).
pub open spec fn aabb_hit_spec(bb: Aabb, r: Ray, tmin: int, tmax: int) -> bool {
    let bx = slab_step(bb.min.x.raw as int, bb.max.x.raw as int, r.origin.x.raw as int,
        r.direction.x.raw as int, (tmin, tmax));
    if bx.1 <= bx.0 {
        false
    } else {
        let by = slab_step(bb.min.y.raw as int, bb.max.y.raw as int, r.origin.y.raw as int,
            r.direction.y.raw as int, bx);
        if by.1 <= by.0 {
            false
        } else {
            let bz = slab_step(bb.min.z.raw as int, bb.max.z.raw as int, r.origin.z.raw as int,
                r.direction.z.raw as int, by);
            !(bz.1 <= bz.0)
        }
    }
}

/// An axis-aligned bounding box, a pair of corner points with
/// `min.i <= max.i` intended (but not required) on every axis.
#[derive(Clone, Copy, Debug)]
pub struct Aabb {
    pub min: Vec3,
    pub max: Vec3,
}

impl Aabb {
    pub fn new(min: Vec3, max: Vec3) -> (r: Aabb)
        ensures
            r.min == min,
            r.max == max,
    {
        Aabb { min, max }
    }

    pub fn min(&self) -> (r: Vec3)
        ensures
            r == self.min,
    {
        self.min
    }

    pub fn max(&self) -> (r: Vec3)
        ensures
            r == self.max,
    {
        self.max
    }

    /// Slab test for `ray` against this box over the window `[tmin, tmax]`.
    pub fn hit(&self, ray: &Ray, tmin: Fx, tmax: Fx) -> (r: bool)
        ensures
            r == aabb_hit_spec(*self, *ray, tmin.raw as int, tmax.raw as int),
    {
        let o = ray.origin();
        let d = ray.direction();
        let mut lo = tmin;
        let mut hi = tmax;

        let tax = self.min.x.sub(o.x).div(d.x);
        let tbx = self.max.x.sub(o.x).div(d.x);
        lo = tax.min(tbx).max(lo);
        hi = tax.max(tbx).min(hi);
        if hi.raw <= lo.raw {
            return false;
        }

        let tay = self.min.y.sub(o.y).div(d.y);
        let tby = self.max.y.sub(o.y).div(d.y);
        lo = tay.min(tby).max(lo);
        hi = tay.max(tby).min(hi);
        if hi.raw <= lo.raw {
            return false;
        }

        let taz = self.min.z.sub(o.z).div(d.z);
        let tbz = self.max.z.sub(o.z).div(d.z);
        lo = taz.min(tbz).max(lo);
        hi = taz.max(tbz).min(hi);
        !(hi.raw <= lo.raw)
    }
}

/// A ray parallel to an axis (zero direction component) whose origin lies
/// strictly inside that axis's slab is unconstrained by it: the slab's
/// interval is the saturated `[-RAW_MAX, RAW_MAX]`, so the running window is
/// returned unchanged.
pub proof fn lemma_parallel_inside_unbounded(
    minc: int,
    maxc: int,
    oc: int,
    tmin: int,
    tmax: int,
)
    requires
        minc < oc < maxc,
        -(RAW_MAX as int) <= tmin <= RAW_MAX as int,
        -(RAW_MAX as int) <= tmax <= RAW_MAX as int,
    ensures
        slab_step(minc, maxc, oc, 0, (tmin, tmax)) == (tmin, tmax),
{
}

/// A ray parallel to an axis whose origin lies outside that axis's slab
/// empties the window: both slab parameters saturate to the same extreme,
/// so the box reports no hit.
pub proof fn lemma_parallel_outside_empty(minc: int, maxc: int, oc: int, tmin: int, tmax: int)
    requires
        minc <= maxc,
        oc < minc || oc > maxc,
        -(RAW_MAX as int) <= tmin <= RAW_MAX as int,
        -(RAW_MAX as int) <= tmax <= RAW_MAX as int,
    ensures
        slab_step(minc, maxc, oc, 0, (tmin, tmax)).1 <= slab_step(
            minc,
            maxc,
            oc,
            0,
            (tmin, tmax),
        ).0,
{
}

} // verus!
