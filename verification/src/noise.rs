//! A coherent lattice noise field and its turbulence sum, entirely in
//! fixed point.
//!
//! Pseudo-random values are attached to the integer lattice by a modular
//! hash, interpolated trilinearly with a smoothstep weight, and summed over
//! four octaves of doubling frequency.  Every function is deterministic and
//! stated exactly by its spec twin.

use crate::fx::{fdiv, fx_add, fx_divi, fx_mul, fx_sub, Fx, SCALE};
use crate::vec3::Vec3;
use vstd::prelude::*;

verus! {

/// Euclidean remainder modulo 256, the lattice period.
pub open spec fn emod256(v: int) -> int {
    v - 256 * fdiv(v, 256)
}

/// The hash value in `[0, SCALE)` attached to a lattice point whose
/// coordinates are already reduced modulo 256.
pub open spec fn lattice(x: int, y: int, z: int) -> int {
    let a = x + 59 * y + 3571 * z + 13;
    ((a * a + 1013904223) * 1664525) % 65536
}

/// Smoothstep weight `u^2 (3 - 2u)` for a fraction `u` in `[0, SCALE)`.
pub open spec fn smooth(u: int) -> int {
    fx_mul(fx_mul(u, u), fx_sub(3 * SCALE as int, fx_mul(2 * SCALE as int, u)))
}

pub open spec fn lerp(a: int, b: int, t: int) -> int {
    fx_add(a, fx_mul(t, fx_sub(b, a)))
}

/// The lattice hash at integer offsets from a base cell, reduced mod 256.
pub open spec fn corner(xi: int, yi: int, zi: int, dx: int, dy: int, dz: int) -> int {
    lattice(emod256(xi + dx), emod256(yi + dy), emod256(zi + dz))
}

/// Value noise at a point: trilinear interpolation of the eight corner
/// hashes of the containing lattice cell, with smoothstep weights.
pub open spec fn noise_at(p: (int, int, int)) -> int {
    let xi = fdiv(p.0, SCALE as int);
    let yi = fdiv(p.1, SCALE as int);
    let zi = fdiv(p.2, SCALE as int);
    let sx = smooth(p.0 - SCALE as int * xi);
    let sy = smooth(p.1 - SCALE as int * yi);
    let sz = smooth(p.2 - SCALE as int * zi);
    let x00 = lerp(corner(xi, yi, zi, 0, 0, 0), corner(xi, yi, zi, 1, 0, 0), sx);
    let x10 = lerp(corner(xi, yi, zi, 0, 1, 0), corner(xi, yi, zi, 1, 1, 0), sx);
    let x01 = lerp(corner(xi, yi, zi, 0, 0, 1), corner(xi, yi, zi, 1, 0, 1), sx);
    let x11 = lerp(corner(xi, yi, zi, 0, 1, 1), corner(xi, yi, zi, 1, 1, 1), sx);
    let y0 = lerp(x00, x10, sy);
    let y1 = lerp(x01, x11, sy);
    lerp(y0, y1, sz)
}

/// Noise centered around zero, in roughly `[-1/2, 1/2)`.
pub open spec fn centered(p: (int, int, int)) -> int {
    fx_sub(noise_at(p), 32768)
}

/// Four octaves of centered noise at doubling frequency and halving weight.
pub open spec fn turb(p: (int, int, int)) -> int {
    let p2 = (fx_mul(2 * SCALE as int, p.0), fx_mul(2 * SCALE as int, p.1), fx_mul(
        2 * SCALE as int,
        p.2,
    ));
    let p4 = (fx_mul(2 * SCALE as int, p2.0), fx_mul(2 * SCALE as int, p2.1), fx_mul(
        2 * SCALE as int,
        p2.2,
    ));
    let p8 = (fx_mul(2 * SCALE as int, p4.0), fx_mul(2 * SCALE as int, p4.1), fx_mul(
        2 * SCALE as int,
        p4.2,
    ));
    fx_add(
        centered(p),
        fx_add(
            fx_divi(centered(p2), 2),
            fx_add(fx_divi(centered(p4), 4), fx_divi(centered(p8), 8)),
        ),
    )
}

/// Euclidean remainder modulo 256 of a machine integer.
fn emod256_exec(v: i64) -> (r: i64)
    ensures
        r as int == emod256(v as int),
        0 <= r < 256,
{
    let q = crate::fx::fdiv128(v as i128, 256);
    proof {
        vstd::arithmetic::div_mod::lemma_fundamental_div_mod(v as int, 256);
        vstd::arithmetic::div_mod::lemma_mod_bound(v as int, 256);
    }
    (v as i128 - 256 * q) as i64
}

fn lattice_exec(x: i64, y: i64, z: i64) -> (r: Fx)
    requires
        0 <= x < 256,
        0 <= y < 256,
        0 <= z < 256,
    ensures
        r.raw as int == lattice(x as int, y as int, z as int),
        0 <= r.raw < SCALE,
{
    let a = (x as u64) + 59 * (y as u64) + 3571 * (z as u64) + 13;
    proof {
        crate::fx::lemma_product_bound(a as int, a as int, 0x100000);
    }
    let h = ((a * a + 1013904223) * 1664525) % 65536;
    Fx { raw: h as i64 }
}

fn smooth_exec(u: Fx) -> (r: Fx)
    ensures
        r.raw as int == smooth(u.raw as int),
{
    u.mul(u).mul(Fx { raw: 3 * SCALE }.sub(Fx { raw: 2 * SCALE }.mul(u)))
}

fn lerp_exec(a: Fx, b: Fx, t: Fx) -> (r: Fx)
    ensures
        r.raw as int == lerp(a.raw as int, b.raw as int, t.raw as int),
{
    a.add(t.mul(b.sub(a)))
}

/// One cell coordinate: the lattice cell index and the smoothed fraction.
fn cell(c: Fx) -> (r: (i64, Fx))
    ensures
        r.0 as int == fdiv(c.raw as int, SCALE as int),
        r.1.raw as int == smooth(c.raw as int - SCALE as int * (r.0 as int)),
        -0x8000_0000_0001 <= r.0 <= 0x8000_0000_0000,
{
    let i = c.floor();
    proof {
        vstd::arithmetic::div_mod::lemma_fundamental_div_mod(c.raw as int, SCALE as int);
        vstd::arithmetic::div_mod::lemma_mod_bound(c.raw as int, SCALE as int);
    }
    let frac = Fx { raw: (c.raw as i128 - (SCALE as i128) * (i as i128)) as i64 };
    (i, smooth_exec(frac))
}

/// Value noise at a world point.
pub fn noise(p: Vec3) -> (r: Fx)
    ensures
        r.raw as int == noise_at(p.v()),
{
    let (xi, sx) = cell(p.x);
    let (yi, sy) = cell(p.y);
    let (zi, sz) = cell(p.z);
    let c000 = corner_exec(xi, yi, zi, 0, 0, 0);
    let c100 = corner_exec(xi, yi, zi, 1, 0, 0);
    let c010 = corner_exec(xi, yi, zi, 0, 1, 0);
    let c110 = corner_exec(xi, yi, zi, 1, 1, 0);
    let c001 = corner_exec(xi, yi, zi, 0, 0, 1);
    let c101 = corner_exec(xi, yi, zi, 1, 0, 1);
    let c011 = corner_exec(xi, yi, zi, 0, 1, 1);
    let c111 = corner_exec(xi, yi, zi, 1, 1, 1);
    let x00 = lerp_exec(c000, c100, sx);
    let x10 = lerp_exec(c010, c110, sx);
    let x01 = lerp_exec(c001, c101, sx);
    let x11 = lerp_exec(c011, c111, sx);
    let y0 = lerp_exec(x00, x10, sy);
    let y1 = lerp_exec(x01, x11, sy);
    lerp_exec(y0, y1, sz)
}

fn corner_exec(xi: i64, yi: i64, zi: i64, dx: i64, dy: i64, dz: i64) -> (r: Fx)
    requires
        -0x7fff_ffff_ffff_0000 <= xi <= 0x7fff_ffff_ffff_0000,
        -0x7fff_ffff_ffff_0000 <= yi <= 0x7fff_ffff_ffff_0000,
        -0x7fff_ffff_ffff_0000 <= zi <= 0x7fff_ffff_ffff_0000,
        0 <= dx <= 1,
        0 <= dy <= 1,
        0 <= dz <= 1,
    ensures
        r.raw as int == corner(xi as int, yi as int, zi as int, dx as int, dy as int, dz as int),
{
    lattice_exec(emod256_exec(xi + dx), emod256_exec(yi + dy), emod256_exec(zi + dz))
}

/// Turbulence: four octaves of centered noise.
pub fn turbulence(p: Vec3) -> (r: Fx)
    ensures
        r.raw as int == turb(p.v()),
{
    let two = Fx { raw: 2 * SCALE };
    let p2 = p.scale(two);
    let p4 = p2.scale(two);
    let p8 = p4.scale(two);
    let n0 = noise(p).sub(Fx { raw: 32768 });
    let n1 = noise(p2).sub(Fx { raw: 32768 });
    let n2 = noise(p4).sub(Fx { raw: 32768 });
    let n3 = noise(p8).sub(Fx { raw: 32768 });
    n0.add(n1.divi(2).add(n2.divi(4).add(n3.divi(8))))
}

} // verus!
