//! Three-component fixed-point vectors, used as points, directions and
//! linear-RGB colors alike.
//!
//! Specifications describe a vector by the integer triple of its components'
//! raw values (the `v()` view); the `v3*` spec functions state each operation
//! exactly over such triples.

use crate::fx::{fx_add, fx_div, fx_mul, fx_neg, fx_sqrt, fx_sub, Fx};
use vstd::prelude::*;

verus! {

/// Raw-value view of a vector: `(x, y, z)` as unbounded integers.
pub open spec fn v3(x: int, y: int, z: int) -> (int, int, int) {
    (x, y, z)
}

pub open spec fn v3add(a: (int, int, int), b: (int, int, int)) -> (int, int, int) {
    (fx_add(a.0, b.0), fx_add(a.1, b.1), fx_add(a.2, b.2))
}

pub open spec fn v3sub(a: (int, int, int), b: (int, int, int)) -> (int, int, int) {
    (fx_sub(a.0, b.0), fx_sub(a.1, b.1), fx_sub(a.2, b.2))
}

pub open spec fn v3neg(a: (int, int, int)) -> (int, int, int) {
    (fx_neg(a.0), fx_neg(a.1), fx_neg(a.2))
}

/// Componentwise (Hadamard) product, as used for color attenuation.
pub open spec fn v3mul(a: (int, int, int), b: (int, int, int)) -> (int, int, int) {
    (fx_mul(a.0, b.0), fx_mul(a.1, b.1), fx_mul(a.2, b.2))
}

pub open spec fn v3div(a: (int, int, int), b: (int, int, int)) -> (int, int, int) {
    (fx_div(a.0, b.0), fx_div(a.1, b.1), fx_div(a.2, b.2))
}

/// Scaling by a fixed-point scalar `t`.
pub open spec fn v3scale(t: int, a: (int, int, int)) -> (int, int, int) {
    (fx_mul(t, a.0), fx_mul(t, a.1), fx_mul(t, a.2))
}

/// Division of every component by a fixed-point scalar `t`.
pub open spec fn v3div_s(a: (int, int, int), t: int) -> (int, int, int) {
    (fx_div(a.0, t), fx_div(a.1, t), fx_div(a.2, t))
}

pub open spec fn v3dot(a: (int, int, int), b: (int, int, int)) -> int {
    fx_add(fx_add(fx_mul(a.0, b.0), fx_mul(a.1, b.1)), fx_mul(a.2, b.2))
}

pub open spec fn v3cross(a: (int, int, int), b: (int, int, int)) -> (int, int, int) {
    (
        fx_sub(fx_mul(a.1, b.2), fx_mul(a.2, b.1)),
        fx_neg(fx_sub(fx_mul(a.0, b.2), fx_mul(a.2, b.0))),
        fx_sub(fx_mul(a.0, b.1), fx_mul(a.1, b.0)),
    )
}

pub open spec fn v3sqlen(a: (int, int, int)) -> int {
    v3dot(a, a)
}

pub open spec fn v3len(a: (int, int, int)) -> int {
    fx_sqrt(v3sqlen(a))
}

/// The unit vector in the direction of `a`: each component divided by the
/// length.  For the zero vector the saturating division yields zero again.
pub open spec fn v3unit(a: (int, int, int)) -> (int, int, int) {
    v3div_s(a, v3len(a))
}

/// The squared length of any triple is nonnegative.
pub proof fn lemma_v3dot_self_nonneg(a: (int, int, int))
    ensures
        v3dot(a, a) >= 0,
{
    crate::fx::lemma_fx_square_nonneg(a.0);
    crate::fx::lemma_fx_square_nonneg(a.1);
    crate::fx::lemma_fx_square_nonneg(a.2);
}

/// Scaling by zero yields the zero triple.
pub proof fn lemma_scale_zero(a: (int, int, int))
    ensures
        v3scale(0, a) == (0int, 0int, 0int),
{
    assert(0 * a.0 == 0 && 0 * a.1 == 0 && 0 * a.2 == 0) by (nonlinear_arith);
}

/// Adding the zero triple to an in-range triple changes nothing.
pub proof fn lemma_add_zero(a: (int, int, int))
    requires
        -(crate::fx::RAW_MAX as int) <= a.0 <= crate::fx::RAW_MAX as int,
        -(crate::fx::RAW_MAX as int) <= a.1 <= crate::fx::RAW_MAX as int,
        -(crate::fx::RAW_MAX as int) <= a.2 <= crate::fx::RAW_MAX as int,
    ensures
        v3add(a, (0int, 0int, 0int)) == a,
{
}

#[derive(Clone, Copy, Debug, PartialEq, Eq, Structural)]
pub struct Vec3 {
    pub x: Fx,
    pub y: Fx,
    pub z: Fx,
}

impl Vec3 {
    /// Raw-value view: the components as an integer triple.
    pub open spec fn v(self) -> (int, int, int) {
        (self.x.raw as int, self.y.raw as int, self.z.raw as int)
    }

    /// The zero vector (also black, as a color).
    pub fn new() -> (r: Vec3)
        ensures
            r.v() == v3(0, 0, 0),
    {
        Vec3 { x: Fx::zero(), y: Fx::zero(), z: Fx::zero() }
    }

    pub fn with_values(x: Fx, y: Fx, z: Fx) -> (r: Vec3)
        ensures
            r.v() == v3(x.raw as int, y.raw as int, z.raw as int),
    {
        Vec3 { x, y, z }
    }

    pub fn x(&self) -> (r: Fx)
        ensures
            r == self.x,
    {
        self.x
    }

    pub fn y(&self) -> (r: Fx)
        ensures
            r == self.y,
    {
        self.y
    }

    pub fn z(&self) -> (r: Fx)
        ensures
            r == self.z,
    {
        self.z
    }

    pub fn r(&self) -> (r: Fx)
        ensures
            r == self.x,
    {
        self.x
    }

    pub fn g(&self) -> (r: Fx)
        ensures
            r == self.y,
    {
        self.y
    }

    pub fn b(&self) -> (r: Fx)
        ensures
            r == self.z,
    {
        self.z
    }

    pub fn add(self, o: Vec3) -> (r: Vec3)
        ensures
            r.v() == v3add(self.v(), o.v()),
    {
        Vec3 { x: self.x.add(o.x), y: self.y.add(o.y), z: self.z.add(o.z) }
    }

    pub fn sub(self, o: Vec3) -> (r: Vec3)
        ensures
            r.v() == v3sub(self.v(), o.v()),
    {
        Vec3 { x: self.x.sub(o.x), y: self.y.sub(o.y), z: self.z.sub(o.z) }
    }

    pub fn neg(self) -> (r: Vec3)
        ensures
            r.v() == v3neg(self.v()),
    {
        Vec3 { x: self.x.neg(), y: self.y.neg(), z: self.z.neg() }
    }

    /// Componentwise product (color attenuation).
    pub fn mul(self, o: Vec3) -> (r: Vec3)
        ensures
            r.v() == v3mul(self.v(), o.v()),
    {
        Vec3 { x: self.x.mul(o.x), y: self.y.mul(o.y), z: self.z.mul(o.z) }
    }

    pub fn div(self, o: Vec3) -> (r: Vec3)
        ensures
            r.v() == v3div(self.v(), o.v()),
    {
        Vec3 { x: self.x.div(o.x), y: self.y.div(o.y), z: self.z.div(o.z) }
    }

    /// Scale by a fixed-point scalar.
    pub fn scale(self, t: Fx) -> (r: Vec3)
        ensures
            r.v() == v3scale(t.raw as int, self.v()),
    {
        Vec3 { x: t.mul(self.x), y: t.mul(self.y), z: t.mul(self.z) }
    }

    /// Divide every component by a fixed-point scalar.
    pub fn div_s(self, t: Fx) -> (r: Vec3)
        ensures
            r.v() == v3div_s(self.v(), t.raw as int),
    {
        Vec3 { x: self.x.div(t), y: self.y.div(t), z: self.z.div(t) }
    }

    pub fn dot(&self, rhs: Vec3) -> (r: Fx)
        ensures
            r.raw as int == v3dot(self.v(), rhs.v()),
    {
        self.x.mul(rhs.x).add(self.y.mul(rhs.y)).add(self.z.mul(rhs.z))
    }

    pub fn cross(&self, rhs: Vec3) -> (r: Vec3)
        ensures
            r.v() == v3cross(self.v(), rhs.v()),
    {
        let x = self.y.mul(rhs.z).sub(self.z.mul(rhs.y));
        let y = self.x.mul(rhs.z).sub(self.z.mul(rhs.x)).neg();
        let z = self.x.mul(rhs.y).sub(self.y.mul(rhs.x));
        Vec3 { x, y, z }
    }

    pub fn squared_len(&self) -> (r: Fx)
        ensures
            r.raw as int == v3sqlen(self.v()),
    {
        self.dot(*self)
    }

    pub fn len(&self) -> (r: Fx)
        ensures
            r.raw as int == v3len(self.v()),
    {
        self.squared_len().sqrt()
    }

    pub fn unit_vector(&self) -> (r: Vec3)
        ensures
            r.v() == v3unit(self.v()),
    {
        let l = self.len();
        self.div_s(l)
    }

    pub fn make_unit_vector(&mut self)
        ensures
            final(self).v() == v3unit(old(self).v()),
    {
        *self = self.unit_vector();
    }

    pub fn update(&mut self, rhs: Vec3)
        ensures
            *final(self) == rhs,
    {
        *self = rhs;
    }
}

} // verus!
