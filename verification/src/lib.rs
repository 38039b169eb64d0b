//! An offline path-tracing renderer whose scene intersection and shading
//! core is verified.
//!
//! All geometry is carried out in fixed-point arithmetic (the [`fx`] module):
//! every operation is total and saturating, and every function's result is
//! pinned down exactly, at the level of the underlying integers, by its
//! contract.

pub mod aabb;
pub mod bvh;
pub mod camera;
pub mod fx;
pub mod hitable;
pub mod map;
pub mod material;
pub mod noise;
pub mod ray;
pub mod render;
pub mod rng;
pub mod texture;
pub mod trig;
pub mod vec3;

use vstd::prelude::*;

verus! {

/// Materials are shared by reference counting (each hit record holds a
/// handle to the material met).  Relies on `Rc::clone`, which returns a
/// handle to the very same value.
#[verifier::external_body]
pub(crate) fn rc_clone<T>(v: &std::rc::Rc<T>) -> (res: std::rc::Rc<T>)
    ensures
        res == *v,
{
    std::rc::Rc::clone(v)
}

} // verus!
