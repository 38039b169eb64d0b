//! Materials: how a surface scatters (or absorbs) an incoming ray, as a
//! closed family of variants.
//!
//! Scattered directions involve random sampling, so the contracts state
//! what holds of every outcome: the attenuation and scatter origin exactly,
//! and the direction as a reflection/refraction formula plus a bounded
//! random perturbation.

use crate::fx::{clip, fx_add, fx_div, fx_mul, fx_neg, fx_sqrt, fx_sub, Fx, SCALE};
use crate::hitable::HitRecord;
use crate::ray::Ray;
use crate::rng::random_unit;
use crate::texture::{texture_value, Texture};
use crate::vec3::{v3add, v3dot, v3mul, v3neg, v3scale, v3sqlen, v3sub, v3unit, Vec3};
use vstd::prelude::*;

verus! {

/// Mirror reflection `v - 2 (v . n) n`.
pub open spec fn reflect_spec(v: (int, int, int), n: (int, int, int)) -> (int, int, int) {
    v3sub(v, v3scale(fx_mul(2 * SCALE as int, v3dot(v, n)), n))
}

/// Snell refraction of `v` about the (outward) normal `n` with index ratio
/// `ni_over_nt`; `None` is total internal reflection.
pub open spec fn refract_spec(v: (int, int, int), n: (int, int, int), ni_over_nt: int) -> Option<
    (int, int, int),
> {
    let uv = v3unit(v);
    let dt = v3dot(uv, n);
    let discriminant = fx_sub(
        SCALE as int,
        fx_mul(fx_mul(ni_over_nt, ni_over_nt), fx_sub(SCALE as int, fx_mul(dt, dt))),
    );
    if discriminant > 0 {
        Some(
            v3sub(
                v3scale(ni_over_nt, v3sub(uv, v3scale(dt, n))),
                v3scale(fx_sqrt(discriminant), n),
            ),
        )
    } else {
        None
    }
}

/// Schlick's reflectance approximation `r0 + (1 - r0)(1 - cos)^5` with
/// `r0 = ((1 - n)/(1 + n))^2`.
pub open spec fn schlick_spec(cos: int, ref_index: int) -> int {
    let r0a = fx_div(fx_sub(SCALE as int, ref_index), fx_add(SCALE as int, ref_index));
    let r0 = fx_mul(r0a, r0a);
    let om = fx_sub(SCALE as int, cos);
    let om2 = fx_mul(om, om);
    let om4 = fx_mul(om2, om2);
    let om5 = fx_mul(om4, om);
    fx_add(r0, fx_mul(fx_sub(SCALE as int, r0), om5))
}

pub fn reflect(v: Vec3, n: Vec3) -> (r: Vec3)
    ensures
        r.v() == reflect_spec(v.v(), n.v()),
{
    v.sub(n.scale(Fx { raw: 2 * SCALE }.mul(v.dot(n))))
}

/// Attempt Snell refraction; `None` signals total internal reflection.
pub fn refract(v: Vec3, n: Vec3, ni_over_nt: Fx) -> (r: Option<Vec3>)
    ensures
        (match r {
            Some(vec) => refract_spec(v.v(), n.v(), ni_over_nt.raw as int) == Some(vec.v()),
            None => refract_spec(v.v(), n.v(), ni_over_nt.raw as int) is None,
        }),
{
    let uv = v.unit_vector();
    let dt = uv.dot(n);
    let discriminant = Fx { raw: SCALE }.sub(
        ni_over_nt.mul(ni_over_nt).mul(Fx { raw: SCALE }.sub(dt.mul(dt))),
    );
    if discriminant.raw > 0 {
        Some(uv.sub(n.scale(dt)).scale(ni_over_nt).sub(n.scale(discriminant.sqrt())))
    } else {
        None
    }
}

pub fn schlick(cos: Fx, ref_index: Fx) -> (r: Fx)
    ensures
        r.raw as int == schlick_spec(cos.raw as int, ref_index.raw as int),
{
    let r0a = Fx { raw: SCALE }.sub(ref_index).div(Fx { raw: SCALE }.add(ref_index));
    let r0 = r0a.mul(r0a);
    let om = Fx { raw: SCALE }.sub(cos);
    let om2 = om.mul(om);
    let om4 = om2.mul(om2);
    let om5 = om4.mul(om);
    r0.add(Fx { raw: SCALE }.sub(r0).mul(om5))
}

#[derive(Debug)]
pub enum Material {
    Lambertian(Lambertian),
    Metal(Metal),
    Dielectric(Dielectric),
    DiffuseLight(DiffuseLight),
    Blank(Blank),
}

/// Diffuse: scatters toward `normal + random_in_sphere`, attenuated by the
/// albedo texture.
#[derive(Debug)]
pub struct Lambertian {
    pub albedo: Texture,
}

/// Specular with roughness: reflects, perturbed by `fuzz` times a random
/// in-sphere vector; absorbs when the result leaves the surface backward.
#[derive(Debug)]
pub struct Metal {
    pub albedo: Texture,
    pub fuzz: Fx,
}

/// Glass: always scatters, choosing between reflection and refraction with
/// probability given by Schlick's approximation.
#[derive(Debug)]
pub struct Dielectric {
    pub ref_index: Fx,
}

/// Emits its texture's value and never scatters.
#[derive(Debug)]
pub struct DiffuseLight {
    pub emit: Texture,
}

/// Scatters nothing and emits nothing; a structural placeholder.
#[derive(Debug, Clone, Copy)]
pub struct Blank;

impl Lambertian {
    pub fn new(albedo: Texture) -> (m: Self)
        ensures
            m == (Lambertian { albedo }),
    {
        Lambertian { albedo }
    }
}

impl Metal {
    /// `fuzz` is clamped to at most one.
    pub fn new(albedo: Texture, fuzz: Fx) -> (m: Self)
        ensures
            m.albedo == albedo,
            m.fuzz.raw as int == if fuzz.raw < SCALE {
                fuzz.raw as int
            } else {
                SCALE as int
            },
    {
        let f = if fuzz.raw < SCALE {
            fuzz
        } else {
            Fx { raw: SCALE }
        };
        Metal { albedo, fuzz: f }
    }
}

impl Dielectric {
    pub fn new(ref_index: Fx) -> (m: Self)
        ensures
            m == (Dielectric { ref_index }),
    {
        Dielectric { ref_index }
    }
}

impl Blank {
    pub fn new() -> (m: Self)
        ensures
            m == Blank,
    {
        Blank
    }
}

impl Default for Blank {
    fn default() -> (m: Self)
        ensures
            m == Blank,
    {
        Blank
    }
}

impl DiffuseLight {
    pub fn new(emit: Texture) -> (m: Self)
        ensures
            m == (DiffuseLight { emit }),
    {
        DiffuseLight { emit }
    }
}

/// The dielectric's outward normal, index ratio and cosine, by the side the
/// ray meets the surface from.
pub open spec fn dielectric_setup(d: Dielectric, ray: Ray, rec_normal: (int, int, int)) -> (
    (int, int, int),
    int,
    int,
) {
    let dirdot = v3dot(ray.direction.v(), rec_normal);
    if dirdot > 0 {
        (
            v3neg(rec_normal),
            d.ref_index.raw as int,
            fx_div(
                fx_mul(d.ref_index.raw as int, dirdot),
                crate::vec3::v3len(ray.direction.v()),
            ),
        )
    } else {
        (
            rec_normal,
            fx_div(SCALE as int, d.ref_index.raw as int),
            fx_div(fx_neg(dirdot), crate::vec3::v3len(ray.direction.v())),
        )
    }
}

/// What `Lambertian::scatter` promises of its (random) outcome.
pub open spec fn lambertian_scatter_ok(
    l: Lambertian,
    ray: Ray,
    rec: HitRecord,
    r: Option<(Vec3, Ray)>,
) -> bool {
    r matches Some((att, sc)) && att.v() == texture_value(
        l.albedo,
        rec.u.raw as int,
        rec.v.raw as int,
        rec.p.v(),
    ) && sc.origin == rec.p && sc.debug == ray.debug && sc.time.raw == 0 && (exists|s: Vec3|
        v3sqlen(s.v()) < SCALE as int && sc.direction.v() == v3sub(
            v3add(v3add(rec.p.v(), rec.normal.v()), s.v()),
            rec.p.v(),
        ))
}

/// What `Metal::scatter` promises of its (random) outcome.
pub open spec fn metal_scatter_ok(m: Metal, ray: Ray, rec: HitRecord, r: Option<(Vec3, Ray)>) -> bool {
    let reflected = reflect_spec(v3unit(ray.direction.v()), rec.normal.v());
    (match r {
        Some((att, sc)) => att.v() == texture_value(
            m.albedo,
            rec.u.raw as int,
            rec.v.raw as int,
            rec.p.v(),
        ) && sc.origin == rec.p && sc.debug == ray.debug && sc.time == ray.time && v3dot(
            sc.direction.v(),
            rec.normal.v(),
        ) > 0 && (exists|s: Vec3|
            v3sqlen(s.v()) < SCALE as int && sc.direction.v() == v3add(
                reflected,
                v3scale(m.fuzz.raw as int, s.v()),
            )),
        None => exists|s: Vec3|
            v3sqlen(s.v()) < SCALE as int && v3dot(
                v3add(reflected, v3scale(m.fuzz.raw as int, s.v())),
                rec.normal.v(),
            ) <= 0,
    }) && (m.fuzz.raw == 0 && v3dot(reflected, rec.normal.v()) > 0 ==> (match r {
        Some(pair) => pair.1.direction.v() == reflected,
        None => false,
    }))
}

/// What `Dielectric::scatter` promises: always scatters, white attenuation,
/// and the direction is the reflection or the refraction for the side met;
/// when refraction is possible and the Schlick reflectance is not positive,
/// the refraction is always taken.
pub open spec fn dielectric_scatter_ok(
    d: Dielectric,
    ray: Ray,
    rec: HitRecord,
    r: Option<(Vec3, Ray)>,
) -> bool {
    let setup = dielectric_setup(d, ray, rec.normal.v());
    let reflected = reflect_spec(ray.direction.v(), rec.normal.v());
    let refracted = refract_spec(ray.direction.v(), setup.0, setup.1);
    r matches Some((att, sc)) && att.v() == (SCALE as int, SCALE as int, SCALE as int)
        && sc.origin == rec.p && sc.debug == ray.debug && sc.time.raw == 0 && (match refracted {
        Some(rd) => (sc.direction.v() == reflected || sc.direction.v() == rd) && (schlick_spec(
            setup.2,
            d.ref_index.raw as int,
        ) <= 0 ==> sc.direction.v() == rd),
        None => sc.direction.v() == reflected,
    })
}

/// What each material emits: the light's texture value, black elsewhere.
pub open spec fn emitted_spec(m: Material, u: int, v: int, p: (int, int, int)) -> (int, int, int) {
    match m {
        Material::DiffuseLight(dl) => texture_value(dl.emit, u, v, p),
        _ => (0, 0, 0),
    }
}

/// Materials that never scatter, whatever the ray.
pub open spec fn never_scatters(m: Material) -> bool {
    m matches Material::DiffuseLight(_) || m matches Material::Blank(_)
}

/// At unit refractive index, Snell refraction is always available: the
/// discriminant equals the squared cosine, so total internal reflection
/// can be reported only at grazing incidence, where the squared cosine
/// rounds to zero.
pub proof fn lemma_unit_index_refracts(v: (int, int, int), n: (int, int, int))
    requires
        fx_mul(v3dot(v3unit(v), n), v3dot(v3unit(v), n)) > 0,
    ensures
        refract_spec(v, n, SCALE as int) is Some,
{
    let dt = v3dot(v3unit(v), n);
    let m = fx_mul(dt, dt);
    crate::fx::lemma_fx_square_nonneg(dt);
    crate::fx::lemma_fx_mul_one(SCALE as int);
    let inner = fx_sub(SCALE as int, m);
    crate::fx::lemma_fx_mul_one(inner);
    assert(fx_sub(SCALE as int, fx_mul(fx_mul(SCALE as int, SCALE as int), inner)) == fx_sub(
        SCALE as int,
        inner,
    ));
}

/// A dielectric with unit refractive index passes head-on rays straight
/// through: the scattered direction is exactly the unit incoming direction
/// and reflection is never chosen (the Schlick reflectance vanishes).
///
/// The exactness hypotheses hold e.g. for axis-aligned unit normals.  Away
/// from head-on incidence the always-refract half of this identity
/// conflicts with the scattering model itself: the reflect-or-refract
/// choice is drawn against the Schlick reflectance `(1 - cos)^5`, which is
/// positive for any non-unit cosine even at unit index, so reflection
/// remains possible there; and an exactly grazing ray (cosine zero) is
/// reported as total internal reflection
/// (`lemma_unit_index_refracts` shows that is the only such input at unit
/// index).  The model's stochastic rule is kept as described; this lemma
/// proves the identity on the inputs where the rule itself is
/// deterministic.
pub proof fn lemma_dielectric_identity(
    d: Dielectric,
    ray: Ray,
    rec: HitRecord,
    r: Option<(Vec3, Ray)>,
)
    requires
        d.ref_index.raw == SCALE,
        dielectric_scatter_ok(d, ray, rec, r),
        v3dot(ray.direction.v(), rec.normal.v()) < 0,
        v3unit(ray.direction.v()) == v3neg(rec.normal.v()),
        v3dot(v3unit(ray.direction.v()), rec.normal.v()) == -(SCALE as int),
        fx_div(
            fx_neg(v3dot(ray.direction.v(), rec.normal.v())),
            crate::vec3::v3len(ray.direction.v()),
        ) == SCALE as int,
        -(crate::fx::RAW_MAX as int) <= rec.normal.v().0 <= crate::fx::RAW_MAX as int,
        -(crate::fx::RAW_MAX as int) <= rec.normal.v().1 <= crate::fx::RAW_MAX as int,
        -(crate::fx::RAW_MAX as int) <= rec.normal.v().2 <= crate::fx::RAW_MAX as int,
    ensures
        (match r {
            Some((att, sc)) => att.v() == (SCALE as int, SCALE as int, SCALE as int)
                && sc.direction.v() == v3unit(ray.direction.v()),
            None => false,
        }),
{
    let n = rec.normal.v();
    let uv = v3unit(ray.direction.v());
    let s = SCALE as int;
    let setup = dielectric_setup(d, ray, n);
    assert(setup.0 == n && setup.2 == s);
    assert(setup.1 == s) by {
        assert(fx_div(s, s) == s) by {
            vstd::arithmetic::div_mod::lemma_div_multiples_vanish(s, s);
        }
    }
    let dt = v3dot(uv, n);
    assert(dt == -s);
    assert(fx_mul(s, s) == s && fx_mul(dt, dt) == s) by {
        vstd::arithmetic::div_mod::lemma_div_multiples_vanish(s, s);
        assert(dt * dt == s * s) by (nonlinear_arith)
            requires
                dt == -s,
        ;
    }
    let disc = fx_sub(s, fx_mul(fx_mul(s, s), fx_sub(s, fx_mul(dt, dt))));
    assert(fx_mul(s, 0) == 0) by {
        vstd::arithmetic::div_mod::lemma_div_multiples_vanish(0, s);
    }
    assert(disc == s);
    crate::fx::lemma_fx_sqrt_one();
    crate::fx::lemma_fx_mul_one(n.0);
    crate::fx::lemma_fx_mul_one(n.1);
    crate::fx::lemma_fx_mul_one(n.2);
    assert(v3scale(dt, n) == (-n.0, -n.1, -n.2));
    assert(uv == (clip(-n.0), clip(-n.1), clip(-n.2)));
    assert(v3sub(uv, v3scale(dt, n)) == (0int, 0int, 0int));
    assert(v3scale(s, (0int, 0int, 0int)) == (0int, 0int, 0int)) by {
        vstd::arithmetic::div_mod::lemma_div_multiples_vanish(0, s);
    }
    assert(v3scale(fx_sqrt(disc), n) == n);
    let refracted = refract_spec(ray.direction.v(), setup.0, setup.1);
    assert(refracted == Some(v3sub((0int, 0int, 0int), n)));
    assert(v3sub((0int, 0int, 0int), n) == uv);
    assert(schlick_spec(setup.2, d.ref_index.raw as int) == 0) by {
        assert(fx_sub(s, s) == 0);
        assert(fx_div(0, fx_add(s, s)) == 0) by {
            vstd::arithmetic::div_mod::lemma_div_multiples_vanish(0, fx_add(s, s));
        }
        assert(fx_mul(0, 0) == 0 && fx_mul(s, 0) == 0) by {
            vstd::arithmetic::div_mod::lemma_div_multiples_vanish(0, s);
        }
    }
}

impl Material {
    /// Scatter an incoming ray at a hit: `Some((attenuation, scattered))`
    /// or `None` for absorption.
    pub fn scatter(&self, ray_in: &Ray, hit_record: &HitRecord) -> (r: Option<(Vec3, Ray)>)
        ensures
            (match *self {
                Material::Lambertian(l) => lambertian_scatter_ok(l, *ray_in, *hit_record, r),
                Material::Metal(m) => metal_scatter_ok(m, *ray_in, *hit_record, r),
                Material::Dielectric(d) => dielectric_scatter_ok(d, *ray_in, *hit_record, r),
                Material::DiffuseLight(_) => r is None,
                Material::Blank(_) => r is None,
            }),
    {
        match self {
            Material::Lambertian(l) => {
                let s = Ray::random_in_sphere();
                let target = hit_record.p.add(hit_record.normal).add(s);
                let scattered = Ray::with_values(
                    hit_record.p,
                    target.sub(hit_record.p),
                    None,
                    ray_in.debug,
                );
                let attenuation = l.albedo.value(hit_record.u, hit_record.v, hit_record.p);
                proof {
                    assert(v3sqlen(s.v()) < SCALE as int && scattered.direction.v() == v3sub(
                        v3add(v3add(hit_record.p.v(), hit_record.normal.v()), s.v()),
                        hit_record.p.v(),
                    ));
                }
                Some((attenuation, scattered))
            },
            Material::Metal(m) => {
                let reflected = reflect(ray_in.direction().unit_vector(), hit_record.normal);
                let s = Ray::random_in_sphere();
                let dir = reflected.add(s.scale(m.fuzz));
                let scattered = Ray::with_values(
                    hit_record.p,
                    dir,
                    Some(ray_in.time()),
                    ray_in.debug,
                );
                let attenuation = m.albedo.value(hit_record.u, hit_record.v, hit_record.p);
                proof {
                    assert(v3sqlen(s.v()) < SCALE as int && dir.v() == v3add(
                        reflect_spec(v3unit(ray_in.direction.v()), hit_record.normal.v()),
                        v3scale(m.fuzz.raw as int, s.v()),
                    ));
                    if m.fuzz.raw == 0 {
                        crate::vec3::lemma_scale_zero(s.v());
                        crate::vec3::lemma_add_zero(
                            reflect_spec(v3unit(ray_in.direction.v()), hit_record.normal.v()),
                        );
                    }
                }
                if scattered.direction().dot(hit_record.normal).raw > 0 {
                    Some((attenuation, scattered))
                } else {
                    None
                }
            },
            Material::Dielectric(d) => {
                let attenuation = Vec3 {
                    x: Fx { raw: SCALE },
                    y: Fx { raw: SCALE },
                    z: Fx { raw: SCALE },
                };
                let reflected = reflect(ray_in.direction(), hit_record.normal);
                let dirdot = ray_in.direction().dot(hit_record.normal);
                let dirlen = ray_in.direction().len();
                let (outward_normal, ni_over_nt, cos) = if dirdot.raw > 0 {
                    (
                        hit_record.normal.neg(),
                        d.ref_index,
                        d.ref_index.mul(dirdot).div(dirlen),
                    )
                } else {
                    (
                        hit_record.normal,
                        Fx { raw: SCALE }.div(d.ref_index),
                        dirdot.neg().div(dirlen),
                    )
                };
                let refracted = refract(ray_in.direction(), outward_normal, ni_over_nt);
                let reflect_prob = match refracted {
                    Some(_) => schlick(cos, d.ref_index),
                    None => Fx { raw: SCALE },
                };
                let pick = random_unit();
                let dir = if pick.raw < reflect_prob.raw {
                    reflected
                } else {
                    match refracted {
                        Some(rd) => rd,
                        None => reflected,
                    }
                };
                let scattered = Ray::with_values(hit_record.p, dir, None, ray_in.debug);
                Some((attenuation, scattered))
            },
            Material::DiffuseLight(_) => None,
            Material::Blank(_) => None,
        }
    }

    /// Emitted light; black except for the light variant.
    pub fn emitted(&self, u: Fx, v: Fx, p: Vec3) -> (c: Vec3)
        ensures
            c.v() == emitted_spec(*self, u.raw as int, v.raw as int, p.v()),
    {
        match self {
            Material::DiffuseLight(dl) => dl.emit.value(u, v, p),
            _ => Vec3::new(),
        }
    }
}

} // verus!
