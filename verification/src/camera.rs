//! The camera: an immutable projection basis built once from the viewing
//! parameters, turning normalized image-plane coordinates into world rays.

use crate::fx::{fx_add, fx_div, fx_divi, fx_mul, fx_sub, Fx, SCALE};
use crate::ray::Ray;
use crate::rng::random_unit;
use crate::trig::{fx_tan, PI};
use crate::vec3::{v3add, v3cross, v3scale, v3sqlen, v3sub, v3unit, Vec3};
use vstd::prelude::*;

verus! {

/// `floor(180 * SCALE)`, for degree-to-radian conversion.
pub const DEG180: i64 = 11796480;

/// Half the vertical image-plane extent: `tan((vfov * pi / 180) / 2)`.
pub open spec fn cam_half_height(vfov: int) -> int {
    fx_tan(fx_divi(fx_div(fx_mul(vfov, PI as int), DEG180 as int), 2))
}

/// What every ray produced for image-plane coordinates `(s, t)` satisfies:
/// the debug flag carries over, the time is a shutter-window jitter, and
/// origin and direction come from some lens-disk sample by the thin-lens
/// construction.
pub open spec fn admissible_ray(c: Camera, s: int, t: int, r: Ray) -> bool {
    &&& r.debug == c.debug
    &&& exists|q: int|
        0 <= q < SCALE as int && r.time.raw as int == fx_add(
            c.t0.raw as int,
            fx_mul(q, fx_sub(c.t1.raw as int, c.t0.raw as int)),
        )
    &&& exists|dsk: (int, int, int)|
        #![trigger v3scale(c.lens_radius.raw as int, dsk)]
        {
            let rd = v3scale(c.lens_radius.raw as int, dsk);
            let off = v3add(v3scale(rd.0, c.uvw.0.v()), v3scale(rd.1, c.uvw.1.v()));
            &&& v3sqlen(dsk) < SCALE as int
            &&& dsk.2 == 0
            &&& r.origin.v() == v3add(c.origin.v(), off)
            &&& r.direction.v() == v3sub(
                v3sub(
                    v3add(
                        v3add(c.llc.v(), v3scale(s, c.horizontal.v())),
                        v3scale(t, c.vertical.v()),
                    ),
                    c.origin.v(),
                ),
                off,
            )
        }
}

#[derive(Clone, Copy, Debug)]
pub struct Camera {
    pub origin: Vec3,
    pub llc: Vec3,
    pub horizontal: Vec3,
    pub vertical: Vec3,
    pub uvw: (Vec3, Vec3, Vec3),
    pub lens_radius: Fx,
    pub t0: Fx,
    pub t1: Fx,
    pub debug: bool,
}

impl Camera {
    /// Build the projection basis.  The image plane is placed at
    /// `focus_dist` so that plane is in perfect focus; `aperture` opens the
    /// lens for depth of field.
    pub fn new(
        lookfrom: Vec3,
        lookat: Vec3,
        vup: Vec3,
        vfov: Fx,
        aspect: Fx,
        aperture: Fx,
        focus_dist: Fx,
        t0: Fx,
        t1: Fx,
        debug: bool,
    ) -> (c: Camera)
        ensures
            c.origin == lookfrom,
            c.t0 == t0,
            c.t1 == t1,
            c.debug == debug,
            c.lens_radius.raw as int == fx_divi(aperture.raw as int, 2),
            c.uvw.2.v() == v3unit(v3sub(lookfrom.v(), lookat.v())),
            c.uvw.0.v() == v3unit(v3cross(vup.v(), c.uvw.2.v())),
            c.uvw.1.v() == v3cross(c.uvw.2.v(), c.uvw.0.v()),
            c.horizontal.v() == v3scale(
                fx_mul(
                    fx_mul(2 * SCALE as int, fx_mul(aspect.raw as int, cam_half_height(vfov.raw as int))),
                    focus_dist.raw as int,
                ),
                c.uvw.0.v(),
            ),
            c.vertical.v() == v3scale(
                fx_mul(
                    fx_mul(2 * SCALE as int, cam_half_height(vfov.raw as int)),
                    focus_dist.raw as int,
                ),
                c.uvw.1.v(),
            ),
            c.llc.v() == v3sub(
                v3sub(
                    v3sub(
                        lookfrom.v(),
                        v3scale(
                            fx_mul(
                                fx_mul(aspect.raw as int, cam_half_height(vfov.raw as int)),
                                focus_dist.raw as int,
                            ),
                            c.uvw.0.v(),
                        ),
                    ),
                    v3scale(
                        fx_mul(cam_half_height(vfov.raw as int), focus_dist.raw as int),
                        c.uvw.1.v(),
                    ),
                ),
                v3scale(focus_dist.raw as int, c.uvw.2.v()),
            ),
    {
        let theta = vfov.mul(Fx { raw: PI }).div(Fx { raw: DEG180 });
        let half_height = crate::trig::tan(theta.divi(2));
        let half_width = aspect.mul(half_height);

        let w = lookfrom.sub(lookat).unit_vector();
        let u = vup.cross(w).unit_vector();
        let v = w.cross(u);

        let llc = lookfrom.sub(u.scale(half_width.mul(focus_dist))).sub(
            v.scale(half_height.mul(focus_dist)),
        ).sub(w.scale(focus_dist));
        let horizontal = u.scale(Fx { raw: 2 * SCALE }.mul(half_width).mul(focus_dist));
        let vertical = v.scale(Fx { raw: 2 * SCALE }.mul(half_height).mul(focus_dist));

        Camera {
            origin: lookfrom,
            llc,
            horizontal,
            vertical,
            uvw: (u, v, w),
            lens_radius: aperture.divi(2),
            t0,
            t1,
            debug,
        }
    }

    /// A ray through normalized image-plane coordinates `(s, t)`, jittered
    /// on the lens disk for depth of field and in time for motion blur.
    /// With a closed aperture both jitters vanish and the ray is the exact
    /// image-plane ray.
    pub fn get_ray(&self, s: Fx, t: Fx) -> (r: Ray)
        ensures
            admissible_ray(*self, s.raw as int, t.raw as int, r),
            self.lens_radius.raw == 0 ==> r.origin.v() == v3add(
                self.origin.v(),
                (0int, 0int, 0int),
            ) && r.direction.v() == v3sub(
                v3sub(
                    v3add(
                        v3add(self.llc.v(), v3scale(s.raw as int, self.horizontal.v())),
                        v3scale(t.raw as int, self.vertical.v()),
                    ),
                    self.origin.v(),
                ),
                (0int, 0int, 0int),
            ),
    {
        let dskv = Ray::random_in_unit_disk();
        let rd = dskv.scale(self.lens_radius);
        let offset = self.uvw.0.scale(rd.x).add(self.uvw.1.scale(rd.y));
        let time = self.t0.add(random_unit().mul(self.t1.sub(self.t0)));
        let origin = self.origin.add(offset);
        let dir = self.llc.add(self.horizontal.scale(s)).add(self.vertical.scale(t)).sub(
            self.origin,
        ).sub(offset);
        proof {
            if self.lens_radius.raw == 0 {
                crate::vec3::lemma_scale_zero(dskv.v());
                assert(rd.v() == (0int, 0int, 0int));
                crate::vec3::lemma_scale_zero(self.uvw.0.v());
                crate::vec3::lemma_scale_zero(self.uvw.1.v());
                assert(offset.v() == (0int, 0int, 0int));
            }
        }
        Ray::with_values(origin, dir, Some(time), self.debug)
    }
}

} // verus!
