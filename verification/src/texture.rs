//! Textures: pure functions from surface parameterization and world point
//! to color, as a closed family of variants.
//!
//! The image variant holds decoded RGB bytes; reading the file that
//! provides them is the caller's concern, outside this library.

use crate::fx::{fdiv, fx_add, fx_div, fx_divi, fx_mul, fx_sub, Fx, SCALE};
use crate::noise::{turb, turbulence};
use crate::trig::fx_sin;
use crate::vec3::Vec3;
use vstd::prelude::*;

verus! {

#[derive(Debug)]
pub enum Texture {
    Solid(SolidTexture),
    Checker(CheckerTexture),
    Noise(NoiseTexture),
    Image(ImageTexture),
}

#[derive(Clone, Copy, Debug)]
pub struct SolidTexture {
    pub color: Vec3,
}

/// A three-dimensional checker: the sign of `sin(10x) sin(10y) sin(10z)`
/// picks between the two child textures.
#[derive(Debug)]
pub struct CheckerTexture {
    pub odd: Box<Texture>,
    pub even: Box<Texture>,
}

/// Marbled bands: `(1 + sin(scale * z + 10 * turbulence(p))) / 2` in every
/// channel, over the library's lattice turbulence field.
#[derive(Clone, Copy, Debug)]
pub struct NoiseTexture {
    pub scale: Fx,
}

/// Nearest-sample lookup into a decoded RGB byte image.
#[derive(Debug)]
pub struct ImageTexture {
    pub nx: u32,
    pub ny: u32,
    pub pixels: Vec<u8>,
}

/// The sign product that drives the checker pattern.
pub open spec fn checker_sines(p: (int, int, int)) -> int {
    let sx = fx_sin(fx_mul(10 * SCALE as int, p.0));
    let sy = fx_sin(fx_mul(10 * SCALE as int, p.1));
    let sz = fx_sin(fx_mul(10 * SCALE as int, p.2));
    fx_mul(fx_mul(sx, sy), sz)
}

/// The grey level of the noise texture at a point.
pub open spec fn noise_level(scale: int, p: (int, int, int)) -> int {
    fx_divi(
        fx_add(SCALE as int, fx_sin(fx_add(fx_mul(scale, p.2), fx_mul(10 * SCALE as int, turb(p))))),
        2,
    )
}

/// One byte channel as a color component: `b / 255`.
pub open spec fn channel(b: int) -> int {
    fdiv(b * SCALE as int, 255)
}

/// Nearest-sample image lookup: pixel `(u * nx, (1 - v) * ny - eps)`,
/// clamped into range; out-of-range backing storage reads as black.
pub open spec fn image_value(t: ImageTexture, u: int, v: int) -> (int, int, int) {
    if t.nx == 0 || t.ny == 0 {
        (0, 0, 0)
    } else {
        let i0 = fdiv(fx_mul(u, crate::fx::clip(t.nx as int * SCALE as int)), SCALE as int);
        let j0 = fdiv(
            fx_sub(
                fx_mul(fx_sub(SCALE as int, v), crate::fx::clip(t.ny as int * SCALE as int)),
                66,
            ),
            SCALE as int,
        );
        let i = if i0 < 0 {
            0
        } else if i0 > t.nx as int - 1 {
            t.nx as int - 1
        } else {
            i0
        };
        let j = if j0 < 0 {
            0
        } else if j0 > t.ny as int - 1 {
            t.ny as int - 1
        } else {
            j0
        };
        let idx = 3 * (j * t.nx as int + i);
        if idx + 3 <= t.pixels@.len() {
            (
                channel(t.pixels@[idx] as int),
                channel(t.pixels@[idx + 1] as int),
                channel(t.pixels@[idx + 2] as int),
            )
        } else {
            (0, 0, 0)
        }
    }
}

/// What a texture evaluates to, for each variant.
pub open spec fn texture_value(t: Texture, u: int, v: int, p: (int, int, int)) -> (int, int, int)
    decreases t,
{
    match t {
        Texture::Solid(s) => s.color.v(),
        Texture::Checker(c) => if checker_sines(p) < 0 {
            texture_value(*c.odd, u, v, p)
        } else {
            texture_value(*c.even, u, v, p)
        },
        Texture::Noise(n) => {
            let g = noise_level(n.scale.raw as int, p);
            (g, g, g)
        },
        Texture::Image(img) => image_value(img, u, v),
    }
}

impl SolidTexture {
    pub fn new(color: Vec3) -> (t: Texture)
        ensures
            t == Texture::Solid(SolidTexture { color }),
    {
        Texture::Solid(SolidTexture { color })
    }
}

impl CheckerTexture {
    pub fn new(odd: Texture, even: Texture) -> (t: Texture)
        ensures
            t == Texture::Checker(CheckerTexture { odd: Box::new(odd), even: Box::new(even) }),
    {
        Texture::Checker(CheckerTexture { odd: Box::new(odd), even: Box::new(even) })
    }
}

impl NoiseTexture {
    pub fn new(scale: Fx) -> (t: Texture)
        ensures
            t == Texture::Noise(NoiseTexture { scale }),
    {
        Texture::Noise(NoiseTexture { scale })
    }

    /// The turbulence field the texture is driven by.
    pub fn turbulence(&self, p: Vec3) -> (r: Fx)
        ensures
            r.raw as int == turb(p.v()),
    {
        turbulence(p)
    }
}

impl ImageTexture {
    /// Wrap already-decoded RGB bytes (three per pixel, row-major with `nx`
    /// columns) as a texture.
    pub fn new(nx: u32, ny: u32, pixels: Vec<u8>) -> (t: Texture)
        requires
            nx <= 32768,
            ny <= 32768,
            pixels@.len() == 3 * nx * ny,
        ensures
            t == Texture::Image(ImageTexture { nx, ny, pixels }),
    {
        Texture::Image(ImageTexture { nx, ny, pixels })
    }
}

fn channel_exec(b: u8) -> (r: Fx)
    ensures
        r.raw as int == channel(b as int),
{
    proof {
        crate::fx::lemma_product_bound(b as int, SCALE as int, 65536);
    }
    let w = (b as u64) * (SCALE as u64) / 255;
    Fx { raw: w as i64 }
}

fn image_value_exec(t: &ImageTexture, u: Fx, v: Fx) -> (c: Vec3)
    ensures
        c.v() == image_value(*t, u.raw as int, v.raw as int),
{
    if t.nx == 0 || t.ny == 0 {
        return Vec3::new();
    }
    let nxf = Fx::from_int(t.nx as i64);
    let nyf = Fx::from_int(t.ny as i64);
    let i0 = u.mul(nxf).floor();
    let j0 = Fx { raw: SCALE }.sub(v).mul(nyf).sub(Fx { raw: 66 }).floor();
    let i: i64 = if i0 < 0 {
        0
    } else if i0 > t.nx as i64 - 1 {
        t.nx as i64 - 1
    } else {
        i0
    };
    let j: i64 = if j0 < 0 {
        0
    } else if j0 > t.ny as i64 - 1 {
        t.ny as i64 - 1
    } else {
        j0
    };
    proof {
        crate::fx::lemma_product_bound(j as int, t.nx as int, 0x1_0000_0000);
    }
    let idx: u128 = 3 * ((j as u128) * (t.nx as u128) + (i as u128));
    if idx + 3 <= t.pixels.len() as u128 {
        let r = channel_exec(t.pixels[idx as usize]);
        let g = channel_exec(t.pixels[(idx + 1) as usize]);
        let b = channel_exec(t.pixels[(idx + 2) as usize]);
        Vec3 { x: r, y: g, z: b }
    } else {
        Vec3::new()
    }
}

impl Texture {
    /// Evaluate the texture at surface coordinates `(u, v)` and world point
    /// `p`.
    pub fn value(&self, u: Fx, v: Fx, p: Vec3) -> (c: Vec3)
        ensures
            c.v() == texture_value(*self, u.raw as int, v.raw as int, p.v()),
        decreases *self,
    {
        match self {
            Texture::Solid(s) => s.color,
            Texture::Checker(c) => {
                let ten = Fx { raw: 10 * SCALE };
                let sx = crate::trig::sin(ten.mul(p.x));
                let sy = crate::trig::sin(ten.mul(p.y));
                let sz = crate::trig::sin(ten.mul(p.z));
                let sines = sx.mul(sy).mul(sz);
                if sines.raw < 0 {
                    c.odd.value(u, v, p)
                } else {
                    c.even.value(u, v, p)
                }
            },
            Texture::Noise(n) => {
                let t = turbulence(p);
                let arg = n.scale.mul(p.z).add(Fx { raw: 10 * SCALE }.mul(t));
                let g = Fx { raw: SCALE }.add(crate::trig::sin(arg)).divi(2);
                Vec3 { x: g, y: g, z: g }
            },
            Texture::Image(img) => image_value_exec(img, u, v),
        }
    }
}

} // verus!
