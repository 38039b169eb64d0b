//! The renderer's source of randomness.
//!
//! The only outside call is `random_u64`; everything built on top of it is
//! verified, and states what holds of every outcome rather than anything
//! about the distribution.

use crate::fx::{Fx, SCALE};
use vstd::prelude::*;

verus! {

/// Relies on rand::random::<u64>: one draw from the thread-local generator.
/// Nothing can be promised of the value.
#[verifier::external_body]
fn random_u64() -> u64 {
    rand::random::<u64>()
}

/// A fixed-point sample in `[0, 1)`.
pub fn random_unit() -> (r: Fx)
    ensures
        0 <= r.raw < SCALE,
{
    let w = random_u64() % (SCALE as u64);
    Fx { raw: w as i64 }
}

/// A fixed-point sample in `[-1, 1)`: `2 * random_unit() - 1`, computed
/// exactly on the raw values.
pub fn random_symmetric() -> (r: Fx)
    ensures
        -SCALE <= r.raw < SCALE,
{
    let u = random_unit();
    Fx { raw: 2 * u.raw - SCALE }
}

/// An index below `n`, used to pick a splitting axis.
pub fn random_below(n: u64) -> (r: u64)
    requires
        n > 0,
    ensures
        r < n,
{
    random_u64() % n
}

} // verus!
