//! Fixed-point circular functions.
//!
//! These are the renderer's own approximations — a truncated Taylor series
//! for the sine after range reduction, and a quadratic arctangent — stated
//! exactly, formula for formula, by the matching spec functions.  `PI` is
//! the fixed-point constant `floor(pi * SCALE)`; periodicity and quadrant
//! logic are relative to it.

use crate::fx::{
    fdiv, fx_abs, fx_add, fx_div, fx_divi, fx_mul, fx_neg, fx_sqrt, fx_sub, Fx, SCALE,
};
use vstd::prelude::*;

verus! {

/// `floor(pi * SCALE)`.
pub const PI: i64 = 205887;

/// One full turn, `2 * PI` exactly, so that range reduction is periodic.
pub const TWO_PI: i64 = 411774;

/// A quarter turn; `PI` is odd, so the halves differ by one raw unit.
pub const HALF_PI: i64 = 102943;

pub const QUARTER_PI: i64 = 51471;

/// `floor(0.273 * SCALE)`, the coefficient of the quadratic arctangent.
pub const ATAN_C: i64 = 17892;

/// Range reduction: the representative of `x` in `[-PI, PI)` modulo `TWO_PI`.
pub open spec fn reduce(x: int) -> int {
    x - fdiv(x + PI as int, TWO_PI as int) * (TWO_PI as int)
}

/// Fold a reduced angle into `[-HALF_PI - 1, HALF_PI]`, where the series is
/// evaluated, using `sin(PI - y) == sin(y)`.
pub open spec fn fold(y: int) -> int {
    if y > HALF_PI as int {
        PI as int - y
    } else if y < -(HALF_PI as int) {
        -(PI as int) - y
    } else {
        y
    }
}

/// Taylor series `y - y^3/6 + y^5/120 - y^7/5040` on the folded angle.
pub open spec fn sin_series(y: int) -> int {
    let y2 = fx_mul(y, y);
    let y3 = fx_mul(y2, y);
    let y5 = fx_mul(y2, y3);
    let y7 = fx_mul(y2, y5);
    fx_sub(fx_add(fx_sub(y, fx_divi(y3, 6)), fx_divi(y5, 120)), fx_divi(y7, 5040))
}

pub open spec fn fx_sin(x: int) -> int {
    sin_series(fold(reduce(x)))
}

pub open spec fn fx_cos(x: int) -> int {
    fx_sin(fx_add(x, HALF_PI as int + 1))
}

pub open spec fn fx_tan(x: int) -> int {
    fx_div(fx_sin(x), fx_cos(x))
}

/// Quadratic arctangent on `[0, 1]`:
/// `atan(r) ~= (pi/4) r + 0.273 r (1 - r)`.
pub open spec fn atan01(r: int) -> int {
    fx_add(fx_mul(QUARTER_PI as int, r), fx_mul(ATAN_C as int, fx_mul(r, fx_sub(SCALE as int, r))))
}

/// Four-quadrant arctangent of `y / x`; zero when both arguments are zero.
pub open spec fn fx_atan2(y: int, x: int) -> int {
    if x == 0 && y == 0 {
        0
    } else {
        let ax = fx_abs(x);
        let ay = fx_abs(y);
        let base = if ay <= ax {
            atan01(fx_div(ay, ax))
        } else {
            fx_sub(HALF_PI as int, atan01(fx_div(ax, ay)))
        };
        if x >= 0 && y >= 0 {
            base
        } else if x < 0 && y >= 0 {
            fx_sub(PI as int, base)
        } else if x < 0 {
            fx_sub(base, PI as int)
        } else {
            fx_neg(base)
        }
    }
}

/// Arcsine via `asin(y) == atan2(y, sqrt(1 - y^2))`.
pub open spec fn fx_asin(y: int) -> int {
    fx_atan2(y, fx_sqrt(fx_sub(SCALE as int, fx_mul(y, y))))
}

/// Sine of a fixed-point angle in radians.
pub fn sin(x: Fx) -> (r: Fx)
    ensures
        r.raw as int == fx_sin(x.raw as int),
{
    let k = reduce_exec(x);
    let y = fold_exec(k);
    let y2 = y.mul(y);
    let y3 = y2.mul(y);
    let y5 = y2.mul(y3);
    let y7 = y2.mul(y5);
    y.sub(y3.divi(6)).add(y5.divi(120)).sub(y7.divi(5040))
}

fn reduce_exec(x: Fx) -> (r: Fx)
    ensures
        r.raw as int == reduce(x.raw as int),
        -(PI as int) <= r.raw as int,
        (r.raw as int) < PI as int,
{
    let shifted: i128 = x.raw as i128 + PI as i128;
    let k = crate::fx::fdiv128(shifted, TWO_PI as u128);
    proof {
        vstd::arithmetic::div_mod::lemma_fundamental_div_mod(shifted as int, TWO_PI as int);
        vstd::arithmetic::div_mod::lemma_mod_bound(shifted as int, TWO_PI as int);
        assert(-0x8100_0000_0000_0000 <= k as int <= 0x8100_0000_0000_0000);
        assert(-0x8100_0000_0000_0000 * 411774 <= (k as int) * (TWO_PI as int)
            <= 0x8100_0000_0000_0000 * 411774) by (nonlinear_arith)
            requires
                -0x8100_0000_0000_0000 <= k as int <= 0x8100_0000_0000_0000,
        ;
        assert(shifted as int - (k as int) * (TWO_PI as int) == (shifted as int) % (
        TWO_PI as int)) by (nonlinear_arith)
            requires
                k as int == (shifted as int) / (TWO_PI as int),
                shifted as int == (TWO_PI as int) * ((shifted as int) / (TWO_PI as int)) + (
                shifted as int) % (TWO_PI as int),
        ;
    }
    let y = shifted - k * (TWO_PI as i128) - (PI as i128);
    Fx { raw: y as i64 }
}

fn fold_exec(y: Fx) -> (r: Fx)
    requires
        -(PI as int) <= y.raw as int,
        (y.raw as int) < PI as int,
    ensures
        r.raw as int == fold(y.raw as int),
        -(HALF_PI as int) - 2 <= r.raw as int <= HALF_PI as int,
{
    if y.raw > HALF_PI {
        Fx { raw: PI - y.raw }
    } else if y.raw < -HALF_PI {
        Fx { raw: -PI - y.raw }
    } else {
        y
    }
}

/// Cosine, as the sine shifted by a quarter turn.
pub fn cos(x: Fx) -> (r: Fx)
    ensures
        r.raw as int == fx_cos(x.raw as int),
{
    sin(x.add(Fx { raw: HALF_PI + 1 }))
}

/// Tangent, as the quotient of sine and cosine.
pub fn tan(x: Fx) -> (r: Fx)
    ensures
        r.raw as int == fx_tan(x.raw as int),
{
    sin(x).div(cos(x))
}

fn atan01_exec(r: Fx) -> (t: Fx)
    ensures
        t.raw as int == atan01(r.raw as int),
{
    Fx { raw: QUARTER_PI }.mul(r).add(
        Fx { raw: ATAN_C }.mul(r.mul(Fx { raw: SCALE }.sub(r))),
    )
}

/// Four-quadrant arctangent.
pub fn atan2(y: Fx, x: Fx) -> (t: Fx)
    ensures
        t.raw as int == fx_atan2(y.raw as int, x.raw as int),
{
    if x.raw == 0 && y.raw == 0 {
        return Fx { raw: 0 };
    }
    let ax = x.abs();
    let ay = y.abs();
    let base = if ay.raw <= ax.raw {
        atan01_exec(ay.div(ax))
    } else {
        Fx { raw: HALF_PI }.sub(atan01_exec(ax.div(ay)))
    };
    if x.raw >= 0 && y.raw >= 0 {
        base
    } else if x.raw < 0 && y.raw >= 0 {
        Fx { raw: PI }.sub(base)
    } else if x.raw < 0 {
        base.sub(Fx { raw: PI })
    } else {
        base.neg()
    }
}

/// Arcsine of a value intended to lie in `[-1, 1]`.
pub fn asin(y: Fx) -> (t: Fx)
    ensures
        t.raw as int == fx_asin(y.raw as int),
{
    atan2(y, Fx { raw: SCALE }.sub(y.mul(y)).sqrt())
}

} // verus!
