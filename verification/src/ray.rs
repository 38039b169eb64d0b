//! Rays: an origin, an unnormalized direction, a time tag for motion blur,
//! and a debug flag that selects the miss-background policy.

use crate::fx::{Fx, RAW_MAX, SCALE};
use crate::hitable::{list_hit_prefix, HitableList};
use crate::material::{emitted_spec, never_scatters, Material};
use crate::texture::texture_value;
use crate::rng::random_symmetric;
use crate::vec3::{v3add, v3mul, v3scale, v3sqlen, Vec3};
use vstd::prelude::*;

verus! {

#[derive(Clone, Copy, Debug)]
pub struct Ray {
    pub origin: Vec3,
    pub direction: Vec3,
    pub time: Fx,
    pub debug: bool,
}

impl Ray {
    pub fn new(debug: bool) -> (r: Ray)
        ensures
            r.origin.v() == (0int, 0int, 0int),
            r.direction.v() == (0int, 0int, 0int),
            r.time.raw == 0,
            r.debug == debug,
    {
        Ray { origin: Vec3::new(), direction: Vec3::new(), time: Fx::zero(), debug }
    }

    pub fn with_values(a: Vec3, b: Vec3, t: Option<Fx>, debug: bool) -> (r: Ray)
        ensures
            r.origin == a,
            r.direction == b,
            r.time == (match t {
                Some(tv) => tv,
                None => Fx { raw: 0 },
            }),
            r.debug == debug,
    {
        let time = match t {
            Some(tv) => tv,
            None => Fx::zero(),
        };
        Ray { origin: a, direction: b, time, debug }
    }

    pub fn origin(&self) -> (r: Vec3)
        ensures
            r == self.origin,
    {
        self.origin
    }

    pub fn direction(&self) -> (r: Vec3)
        ensures
            r == self.direction,
    {
        self.direction
    }

    pub fn time(&self) -> (r: Fx)
        ensures
            r == self.time,
    {
        self.time
    }

    /// `origin + t * direction`, in saturating fixed-point arithmetic.
    pub fn point_at_param(&self, t: Fx) -> (r: Vec3)
        ensures
            r.v() == v3add(self.origin.v(), v3scale(t.raw as int, self.direction.v())),
    {
        self.origin.add(self.direction.scale(t))
    }

    /// Replace origin and direction, keeping time and debug flag, as a
    /// scatter event does.
    pub fn update(&mut self, rhs: Ray)
        ensures
            final(self).origin == rhs.origin,
            final(self).direction == rhs.direction,
            final(self).time == old(self).time,
            final(self).debug == old(self).debug,
    {
        self.origin = rhs.origin;
        self.direction = rhs.direction;
    }
}

/// What every radiance estimate for a ray satisfies, whatever the random
/// scatter directions and branch choices were: the miss background is
/// fixed, a terminal hit returns the emission alone, and a scattering hit
/// returns the emission plus the material's attenuation times some
/// recursive estimate.
pub open spec fn color_outcome(r: Ray, list: Seq<crate::hitable::Hitable>, depth: int, c: Vec3) -> bool {
    &&& (list_hit_prefix(list, list.len() as int, r, 66, RAW_MAX as int) is None ==> c.v() == (
    if r.debug {
        (SCALE as int, SCALE as int, SCALE as int)
    } else {
        (0int, 0int, 0int)
    }))
    &&& (match list_hit_prefix(list, list.len() as int, r, 66, RAW_MAX as int) {
        Some(rec) => (depth >= 50 || never_scatters(*rec.material)) ==> c.v() == emitted_spec(
            *rec.material,
            rec.u,
            rec.v,
            rec.p,
        ),
        None => true,
    })
    &&& (match list_hit_prefix(list, list.len() as int, r, 66, RAW_MAX as int) {
        Some(rec) => depth < 50 ==> (match *rec.material {
            Material::Lambertian(l) => exists|rest: (int, int, int)|
                c.v() == #[trigger] v3add(
                    emitted_spec(*rec.material, rec.u, rec.v, rec.p),
                    v3mul(texture_value(l.albedo, rec.u, rec.v, rec.p), rest),
                ),
            Material::Dielectric(_) => exists|rest: (int, int, int)|
                c.v() == #[trigger] v3add(
                    emitted_spec(*rec.material, rec.u, rec.v, rec.p),
                    v3mul((SCALE as int, SCALE as int, SCALE as int), rest),
                ),
            Material::Metal(mm) => c.v() == emitted_spec(*rec.material, rec.u, rec.v, rec.p)
                || exists|rest: (int, int, int)|
                c.v() == #[trigger] v3add(
                    emitted_spec(*rec.material, rec.u, rec.v, rec.p),
                    v3mul(texture_value(mm.albedo, rec.u, rec.v, rec.p), rest),
                ),
            _ => true,
        }),
        None => true,
    })
}

impl Ray {
    /// Estimate the radiance carried to this ray: intersect the scene just
    /// above zero to avoid self-intersection, add the hit material's
    /// emission, and recurse through at most fifty scatter events; a miss
    /// returns the background (white in debug mode, black otherwise).
    pub fn color(&self, world: &HitableList, depth: i64) -> (c: Vec3)
        ensures
            color_outcome(*self, world.list@, depth as int, c),
        decreases 50 - depth,
    {
        let hit = world.hit(self, Fx { raw: 66 }, Fx { raw: RAW_MAX });
        match hit {
            Some(rec) => {
                let emitted = rec.material.emitted(rec.u, rec.v, rec.p);
                if depth < 50 {
                    match rec.material.scatter(self, &rec) {
                        Some((attenuation, scattered)) => {
                            let rest = scattered.color(world, depth + 1);
                            let out = emitted.add(attenuation.mul(rest));
                            proof {
                                let srec = rec.rv();
                                let m = *srec.material;
                                let ev = emitted_spec(m, srec.u, srec.v, srec.p);
                                match m {
                                    Material::Lambertian(l) => {
                                        assert(out.v() == v3add(
                                            ev,
                                            v3mul(
                                                texture_value(
                                                    l.albedo,
                                                    srec.u,
                                                    srec.v,
                                                    srec.p,
                                                ),
                                                rest.v(),
                                            ),
                                        ));
                                    },
                                    Material::Dielectric(_) => {
                                        assert(out.v() == v3add(
                                            ev,
                                            v3mul(
                                                (SCALE as int, SCALE as int, SCALE as int),
                                                rest.v(),
                                            ),
                                        ));
                                    },
                                    Material::Metal(mm) => {
                                        assert(out.v() == v3add(
                                            ev,
                                            v3mul(
                                                texture_value(
                                                    mm.albedo,
                                                    srec.u,
                                                    srec.v,
                                                    srec.p,
                                                ),
                                                rest.v(),
                                            ),
                                        ));
                                    },
                                    _ => {},
                                }
                            }
                            out
                        },
                        None => emitted,
                    }
                } else {
                    emitted
                }
            },
            None => {
                if self.debug {
                    Vec3 { x: Fx { raw: SCALE }, y: Fx { raw: SCALE }, z: Fx { raw: SCALE } }
                } else {
                    Vec3::new()
                }
            },
        }
    }

    /// A vector strictly inside the unit sphere, from rejection sampling
    /// with a bounded number of attempts; the center is the (deterministic)
    /// fallback, so the bound below holds of every outcome.
    pub fn random_in_sphere() -> (r: Vec3)
        ensures
            v3sqlen(r.v()) < SCALE as int,
    {
        let mut tries: u64 = 0;
        while tries < 64
            invariant
                tries <= 64,
            decreases 64 - tries,
        {
            let p = Vec3 {
                x: random_symmetric(),
                y: random_symmetric(),
                z: random_symmetric(),
            };
            let sql = p.squared_len();
            if sql.raw < SCALE {
                return p;
            }
            tries = tries + 1;
        }
        Vec3::new()
    }

    /// A vector strictly inside the unit disk of the lens plane (`z == 0`).
    pub fn random_in_unit_disk() -> (r: Vec3)
        ensures
            v3sqlen(r.v()) < SCALE as int,
            r.z.raw == 0,
    {
        let mut tries: u64 = 0;
        while tries < 64
            invariant
                tries <= 64,
            decreases 64 - tries,
        {
            let p = Vec3 { x: random_symmetric(), y: random_symmetric(), z: Fx::zero() };
            let sql = p.squared_len();
            if sql.raw < SCALE {
                return p;
            }
            tries = tries + 1;
        }
        Vec3::new()
    }
}

impl Default for Ray {
    fn default() -> (r: Self)
        ensures
            r.debug == false,
            r.origin.v() == (0int, 0int, 0int),
            r.direction.v() == (0int, 0int, 0int),
            r.time.raw == 0,
    {
        Self::new(false)
    }
}

} // verus!
