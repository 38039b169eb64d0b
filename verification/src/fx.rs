//! Saturating fixed-point scalars.
//!
//! A real quantity `q` is represented by the integer `raw == floor(q * SCALE)`
//! held in an `i64`.  Every operation is total: results are computed exactly
//! in wide integers, rounded toward minus infinity where rounding is needed,
//! and then clipped into `[-RAW_MAX, RAW_MAX]`.  The clipped endpoints play
//! the role the infinities play in floating-point code: dividing a nonzero
//! number by zero yields the saturated value of the dividend's sign.
//!
//! The spec functions `fx_add`, `fx_sub`, `fx_mul`, `fx_div`, `fx_neg`,
//! `fx_sqrt`, … state each operation exactly over `int`; the executable
//! methods are proved to return precisely those values.

use vstd::arithmetic::div_mod::{lemma_fundamental_div_mod, lemma_fundamental_div_mod_converse};
use vstd::prelude::*;

verus! {

/// Number of raw units per real unit (2^16).
pub const SCALE: i64 = 65536;

/// Largest representable raw magnitude; `-RAW_MAX` is the smallest, so that
/// negation never overflows.
pub const RAW_MAX: i64 = 0x7fff_ffff_ffff_ffff;

/// Clamp an unbounded integer into the representable raw range.
pub open spec fn clip(v: int) -> int {
    if v > RAW_MAX as int {
        RAW_MAX as int
    } else if v < -(RAW_MAX as int) {
        -(RAW_MAX as int)
    } else {
        v
    }
}

/// Division rounding toward minus infinity, for any nonzero divisor.
/// (Euclidean `/` on `int` already rounds toward minus infinity when the
/// divisor is positive, so a negative divisor is handled by negating both.)
pub open spec fn fdiv(a: int, b: int) -> int
    recommends
        b != 0,
{
    if b > 0 {
        a / b
    } else {
        (-a) / (-b)
    }
}

pub open spec fn fx_add(a: int, b: int) -> int {
    clip(a + b)
}

pub open spec fn fx_sub(a: int, b: int) -> int {
    clip(a - b)
}

pub open spec fn fx_neg(a: int) -> int {
    clip(-a)
}

pub open spec fn fx_mul(a: int, b: int) -> int {
    clip(fdiv(a * b, SCALE as int))
}

/// Division of fixed-point values.  A zero divisor saturates to the sign of
/// the dividend, the analogue of the IEEE infinities the slab test relies on;
/// `0 / 0` is defined as `0`.
pub open spec fn fx_div(a: int, b: int) -> int {
    if b == 0 {
        if a == 0 {
            0
        } else if a > 0 {
            RAW_MAX as int
        } else {
            -(RAW_MAX as int)
        }
    } else {
        clip(fdiv(a * SCALE as int, b))
    }
}

/// Division of a fixed-point value by a small positive machine integer
/// (an exact constant such as a Taylor-series denominator).
pub open spec fn fx_divi(a: int, k: int) -> int
    recommends
        k > 0,
{
    clip(fdiv(a, k))
}

pub open spec fn fx_abs(a: int) -> int {
    clip(
        if a < 0 {
            -a
        } else {
            a
        },
    )
}

pub open spec fn fx_min(a: int, b: int) -> int {
    if a <= b {
        a
    } else {
        b
    }
}

pub open spec fn fx_max(a: int, b: int) -> int {
    if a >= b {
        a
    } else {
        b
    }
}

/// `floor(sqrt(n))`, defined by primitive recursion.
pub open spec fn sqrt_floor(n: nat) -> nat
    decreases n,
{
    if n == 0 {
        0
    } else {
        let r = sqrt_floor((n - 1) as nat);
        if (r + 1) * (r + 1) <= n {
            r + 1
        } else {
            r
        }
    }
}

/// Square root of a fixed-point value: `sqrt(raw / S) * S == sqrt(raw * S)`.
/// Negative inputs (where real square roots do not exist) map to zero.
pub open spec fn fx_sqrt(a: int) -> int {
    if a <= 0 {
        0
    } else {
        sqrt_floor((a * SCALE as int) as nat) as int
    }
}

/// A saturating fixed-point number; `raw` is `floor(value * SCALE)`.
#[derive(Clone, Copy, Debug, PartialEq, Eq, Structural)]
pub struct Fx {
    pub raw: i64,
}

/// For `m >= 0 < d`, rounding `-m / d` toward minus infinity equals the
/// negated ceiling of `m / d`.
proof fn lemma_neg_div(m: int, d: int)
    requires
        m >= 0,
        d > 0,
    ensures
        (-m) / d == -((m + d - 1) / d),
{
    let q = m / d;
    let r = m % d;
    lemma_fundamental_div_mod(m, d);
    assert(m == d * q + r);
    if r == 0 {
        assert(m + d - 1 == q * d + (d - 1)) by (nonlinear_arith)
            requires
                m == d * q + r,
                r == 0,
        ;
        assert(-m == (-q) * d + 0) by (nonlinear_arith)
            requires
                m == d * q + r,
                r == 0,
        ;
        lemma_fundamental_div_mod_converse(m + d - 1, d, q, d - 1);
        lemma_fundamental_div_mod_converse(-m, d, -q, 0);
    } else {
        assert(m + d - 1 == (q + 1) * d + (r - 1)) by (nonlinear_arith)
            requires
                m == d * q + r,
        ;
        assert(-m == (-(q + 1)) * d + (d - r)) by (nonlinear_arith)
            requires
                m == d * q + r,
        ;
        lemma_fundamental_div_mod_converse(m + d - 1, d, q + 1, r - 1);
        lemma_fundamental_div_mod_converse(-m, d, -(q + 1), d - r);
    }
}

/// Bound on a product of two magnitudes-bounded factors, used to discharge
/// the wide-integer overflow checks.
pub(crate) proof fn lemma_product_bound(a: int, b: int, m: int)
    requires
        -m <= a <= m,
        -m <= b <= m,
        0 <= m,
    ensures
        -(m * m) <= a * b <= m * m,
{
    assert(-(m * m) <= a * b <= m * m) by (nonlinear_arith)
        requires
            -m <= a <= m,
            -m <= b <= m,
            0 <= m,
    ;
}

/// Saturating division is monotone in the dividend, for a nonnegative
/// divisor (including the saturated division by zero).
pub proof fn lemma_fx_div_mono(a1: int, a2: int, b: int)
    requires
        a1 <= a2,
        b >= 0,
    ensures
        fx_div(a1, b) <= fx_div(a2, b),
{
    if b > 0 {
        assert(a1 * SCALE as int <= a2 * SCALE as int) by (nonlinear_arith)
            requires
                a1 <= a2,
        ;
        vstd::arithmetic::div_mod::lemma_div_is_ordered(
            a1 * SCALE as int,
            a2 * SCALE as int,
            b as int,
        );
    }
}

/// Multiplying by the fixed-point one is the identity on in-range values.
pub proof fn lemma_fx_mul_one(x: int)
    requires
        -(RAW_MAX as int) <= x <= RAW_MAX as int,
    ensures
        fx_mul(SCALE as int, x) == x,
        fx_mul(-(SCALE as int), x) == -x,
{
    vstd::arithmetic::div_mod::lemma_div_multiples_vanish(x, SCALE as int);
    vstd::arithmetic::div_mod::lemma_div_multiples_vanish(-x, SCALE as int);
    assert(SCALE as int * x == (SCALE as int) * x);
    assert(-(SCALE as int) * x == (SCALE as int) * (-x)) by (nonlinear_arith);
}

/// The square root of the fixed-point one is one.
pub proof fn lemma_fx_sqrt_one()
    ensures
        fx_sqrt(SCALE as int) == SCALE as int,
{
    assert((SCALE as int * SCALE as int) as nat == (65536 * 65536) as nat);
    assert(65536nat * 65536nat <= (65536 * 65536) as nat) by (nonlinear_arith);
    assert((65536nat + 1) * (65536nat + 1) > (65536 * 65536) as nat) by (nonlinear_arith);
    lemma_sqrt_floor_unique((65536 * 65536) as nat, 65536nat);
}

/// A saturated square is nonnegative.
pub proof fn lemma_fx_square_nonneg(x: int)
    ensures
        fx_mul(x, x) >= 0,
{
    assert(x * x >= 0) by (nonlinear_arith);
    if x * x > 0 {
        vstd::arithmetic::div_mod::lemma_div_pos_is_pos(x * x, SCALE as int);
    }
}

/// Clamp a wide intermediate into the raw range.
fn clip128(v: i128) -> (r: i64)
    ensures
        r as int == clip(v as int),
{
    if v > RAW_MAX as i128 {
        RAW_MAX
    } else if v < -(RAW_MAX as i128) {
        -RAW_MAX
    } else {
        v as i64
    }
}

/// Floor division of a wide signed value by a positive divisor, computed on
/// magnitudes so that only unsigned machine division is needed.
pub(crate) fn fdiv128(p: i128, d: u128) -> (r: i128)
    requires
        0 < d <= 0x8000_0000_0000_0000,
        -0x4000_0000_0000_0000_0000_0000_0000_0000 <= p
            <= 0x4000_0000_0000_0000_0000_0000_0000_0000,
    ensures
        r as int == fdiv(p as int, d as int),
        p >= 0 ==> 0 <= r <= p,
        p < 0 ==> p <= r <= 0,
{
    proof {
        lemma_fundamental_div_mod(p as int, d as int);
        vstd::arithmetic::div_mod::lemma_mod_bound(p as int, d as int);
        let q = (p as int) / (d as int);
        let rr = (p as int) % (d as int);
        assert((p >= 0 ==> 0 <= q <= p) && (p < 0 ==> p <= q <= 0)) by (nonlinear_arith)
            requires
                p as int == (d as int) * q + rr,
                0 <= rr < d as int,
                d as int >= 1,
        ;
    }
    if p >= 0 {
        let q = (p as u128) / d;
        q as i128
    } else {
        let m = (-p) as u128;
        let q = (m + (d - 1)) / d;
        proof {
            lemma_neg_div(m as int, d as int);
        }
        -(q as i128)
    }
}

impl Fx {
    pub open spec fn v(self) -> int {
        self.raw as int
    }

    pub fn zero() -> (r: Fx)
        ensures
            r.raw == 0,
    {
        Fx { raw: 0 }
    }

    pub fn one() -> (r: Fx)
        ensures
            r.raw as int == SCALE as int,
    {
        Fx { raw: SCALE }
    }

    pub fn from_raw(raw: i64) -> (r: Fx)
        ensures
            r.raw == raw,
    {
        Fx { raw }
    }

    /// The fixed-point image of a machine integer, saturated.
    pub fn from_int(v: i64) -> (r: Fx)
        ensures
            r.raw as int == clip(v * SCALE as int),
    {
        proof {
            lemma_product_bound(v as int, SCALE as int, 0x8000_0000_0000_0000);
        }
        let w = (v as i128) * (SCALE as i128);
        Fx { raw: clip128(w) }
    }

    pub fn add(self, o: Fx) -> (r: Fx)
        ensures
            r.raw as int == fx_add(self.raw as int, o.raw as int),
    {
        let s = (self.raw as i128) + (o.raw as i128);
        Fx { raw: clip128(s) }
    }

    pub fn sub(self, o: Fx) -> (r: Fx)
        ensures
            r.raw as int == fx_sub(self.raw as int, o.raw as int),
    {
        let s = (self.raw as i128) - (o.raw as i128);
        Fx { raw: clip128(s) }
    }

    pub fn neg(self) -> (r: Fx)
        ensures
            r.raw as int == fx_neg(self.raw as int),
    {
        let s = -(self.raw as i128);
        Fx { raw: clip128(s) }
    }

    pub fn mul(self, o: Fx) -> (r: Fx)
        ensures
            r.raw as int == fx_mul(self.raw as int, o.raw as int),
    {
        proof {
            lemma_product_bound(self.raw as int, o.raw as int, 0x8000_0000_0000_0000);
        }
        let p = (self.raw as i128) * (o.raw as i128);
        let q = fdiv128(p, SCALE as u128);
        Fx { raw: clip128(q) }
    }

    pub fn div(self, o: Fx) -> (r: Fx)
        ensures
            r.raw as int == fx_div(self.raw as int, o.raw as int),
    {
        if o.raw == 0 {
            if self.raw == 0 {
                Fx { raw: 0 }
            } else if self.raw > 0 {
                Fx { raw: RAW_MAX }
            } else {
                Fx { raw: -RAW_MAX }
            }
        } else {
            proof {
                lemma_product_bound(self.raw as int, SCALE as int, 0x8000_0000_0000_0000);
            }
            let num = (self.raw as i128) * (SCALE as i128);
            if o.raw > 0 {
                let q = fdiv128(num, o.raw as u128);
                Fx { raw: clip128(q) }
            } else {
                let d = if o.raw == i64::MIN {
                    0x8000_0000_0000_0000u128
                } else {
                    (-o.raw) as u128
                };
                let q = fdiv128(-num, d);
                proof {
                    assert(fdiv(self.raw as int * SCALE as int, o.raw as int) == fdiv(
                        -(num as int),
                        d as int,
                    ));
                }
                Fx { raw: clip128(q) }
            }
        }
    }

    pub fn min(self, o: Fx) -> (r: Fx)
        ensures
            r.raw as int == fx_min(self.raw as int, o.raw as int),
    {
        if self.raw <= o.raw {
            self
        } else {
            o
        }
    }

    pub fn max(self, o: Fx) -> (r: Fx)
        ensures
            r.raw as int == fx_max(self.raw as int, o.raw as int),
    {
        if self.raw >= o.raw {
            self
        } else {
            o
        }
    }

    /// Division by a small positive machine integer.
    pub fn divi(self, k: i64) -> (r: Fx)
        requires
            0 < k,
        ensures
            r.raw as int == fx_divi(self.raw as int, k as int),
    {
        let q = fdiv128(self.raw as i128, k as u128);
        Fx { raw: clip128(q) }
    }

    pub fn abs(self) -> (r: Fx)
        ensures
            r.raw as int == fx_abs(self.raw as int),
    {
        if self.raw < 0 {
            self.neg()
        } else {
            self
        }
    }

    /// Integer part, rounded toward minus infinity.
    pub fn floor(self) -> (r: i64)
        ensures
            r as int == fdiv(self.raw as int, SCALE as int),
    {
        let q = fdiv128(self.raw as i128, SCALE as u128);
        q as i64
    }

    pub fn sqrt(self) -> (r: Fx)
        ensures
            r.raw as int == fx_sqrt(self.raw as int),
    {
        if self.raw <= 0 {
            Fx { raw: 0 }
        } else {
            proof {
                lemma_product_bound(self.raw as int, SCALE as int, 0x8000_0000_0000_0000);
            }
            let n = (self.raw as u128) * (SCALE as u128);
            let r = isqrt(n);
            proof {
                lemma_sqrt_floor_unique(n as nat, r as nat);
            }
            Fx { raw: r as i64 }
        }
    }
}

/// `sqrt_floor(n)` really brackets `n`.
proof fn lemma_sqrt_floor_bracket(n: nat)
    ensures
        sqrt_floor(n) * sqrt_floor(n) <= n,
        n < (sqrt_floor(n) + 1) * (sqrt_floor(n) + 1),
    decreases n,
{
    let s = sqrt_floor(n);
    if n == 0 {
        assert(s == 0);
        assert(n < (s + 1) * (s + 1)) by (nonlinear_arith)
            requires
                s == 0,
                n == 0,
        ;
    } else {
        lemma_sqrt_floor_bracket((n - 1) as nat);
        let p = sqrt_floor((n - 1) as nat);
        if (p + 1) * (p + 1) <= n {
            assert(s == p + 1);
            assert(s * s <= n && n < (s + 1) * (s + 1)) by (nonlinear_arith)
                requires
                    s == p + 1,
                    (p + 1) * (p + 1) <= n,
                    n - 1 < (p + 1) * (p + 1),
            ;
        } else {
            assert(s == p);
            assert(s * s <= n && n < (s + 1) * (s + 1)) by (nonlinear_arith)
                requires
                    s == p,
                    p * p <= n - 1,
                    n < (p + 1) * (p + 1),
                    n >= 1,
            ;
        }
    }
}

/// Any value bracketing `n` the way a floor square root does is the floor
/// square root.
pub proof fn lemma_sqrt_floor_unique(n: nat, r: nat)
    requires
        r * r <= n,
        n < (r + 1) * (r + 1),
    ensures
        r == sqrt_floor(n),
{
    let s = sqrt_floor(n);
    lemma_sqrt_floor_bracket(n);
    if r < s {
        assert((r + 1) * (r + 1) <= s * s) by (nonlinear_arith)
            requires
                r + 1 <= s,
        ;
    }
    if s < r {
        assert((s + 1) * (s + 1) <= r * r) by (nonlinear_arith)
            requires
                s + 1 <= r,
        ;
    }
}

/// Floor square root of a wide unsigned value, by bisection.
fn isqrt(n: u128) -> (r: u128)
    requires
        n < 0x1_0000_0000_0000_0000_0000,  // 2^80
    ensures
        r * r <= n,
        n < (r + 1) * (r + 1),
        r < 0x2_0000_0000_0000,
{
    let mut lo: u128 = 0;
    let mut hi: u128 = 0x2_0000_0000_0000;  // 2^49 > sqrt(2^80) + 1
    while lo + 1 < hi
        invariant
            lo < hi,
            hi <= 0x2_0000_0000_0000,
            lo * lo <= n,
            n < hi * hi,
        decreases hi - lo,
    {
        let mid = lo + (hi - lo) / 2;
        proof {
            lemma_product_bound(mid as int, mid as int, 0x2_0000_0000_0000);
        }
        if mid * mid <= n {
            lo = mid;
        } else {
            hi = mid;
        }
    }
    lo
}

} // verus!
