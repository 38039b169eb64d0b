use std::rc::Rc;

use raytracer::aabb::Aabb;
use raytracer::bvh::BvhNode;
use raytracer::camera::Camera;
use raytracer::fx::{Fx, RAW_MAX, SCALE};
use raytracer::hitable::{Hitable, HitableList, MovingSphere, Sphere};
use raytracer::material::{Dielectric, Lambertian, Material, Metal};
use raytracer::ray::Ray;
use raytracer::rng::{random_below, random_unit};
use raytracer::texture::SolidTexture;
use raytracer::vec3::Vec3;

fn fxi(v: i64) -> Fx {
    Fx::from_int(v)
}

fn vec(x: i64, y: i64, z: i64) -> Vec3 {
    Vec3 { x: fxi(x), y: fxi(y), z: fxi(z) }
}

fn grey_material() -> Rc<Material> {
    Rc::new(Material::Lambertian(Lambertian::new(SolidTexture::new(vec(1, 1, 1)))))
}

fn sphere(cx: i64, cy: i64, cz: i64, r: i64) -> Hitable {
    Hitable::Sphere(Sphere::with_values(vec(cx, cy, cz), fxi(r), grey_material()))
}

// An axis-aligned ray with origin inside a slab must treat the box as
// unbounded on that axis, and a parallel ray outside the slab misses.
#[test]
fn aabb_axis_aligned_rays() {
    let bb = Aabb::new(vec(-1, -1, -1), vec(1, 1, 1));
    // x and y direction components are zero; origin inside those slabs.
    let through = Ray::with_values(vec(0, 0, -5), vec(0, 0, 1), None, false);
    assert!(bb.hit(&through, Fx { raw: 66 }, Fx { raw: RAW_MAX }));
    // parallel to z, but outside the x slab: never hits
    let beside = Ray::with_values(vec(3, 0, -5), vec(0, 0, 1), None, false);
    assert!(!bb.hit(&beside, Fx { raw: 66 }, Fx { raw: RAW_MAX }));
    // reversed direction misses (hits only behind the origin)
    let away = Ray::with_values(vec(0, 0, -5), vec(0, 0, -1), None, false);
    assert!(!bb.hit(&away, Fx { raw: 66 }, Fx { raw: RAW_MAX }));
}

// The single-sphere scenario: ray from (0,0,-5) toward +z against the unit
// sphere at the origin hits at t == 4, point (0,0,-1), normal (0,0,-1).
#[test]
fn unit_sphere_head_on_hit() {
    let s = sphere(0, 0, 0, 1);
    let r = Ray::with_values(vec(0, 0, -5), vec(0, 0, 1), None, false);
    let rec = s.hit(&r, Fx { raw: 66 }, Fx { raw: RAW_MAX }).expect("must hit");
    assert_eq!(rec.t.raw, 4 * SCALE);
    assert_eq!((rec.p.x.raw, rec.p.y.raw, rec.p.z.raw), (0, 0, -SCALE));
    assert_eq!((rec.normal.x.raw, rec.normal.y.raw, rec.normal.z.raw), (0, 0, -SCALE));
}

// The nearer quadratic root wins even though both are inside the window.
#[test]
fn sphere_reports_nearest_root() {
    let s = sphere(0, 0, 0, 2);
    let r = Ray::with_values(vec(0, 0, -10), vec(0, 0, 1), None, false);
    let rec = s.hit(&r, Fx { raw: 66 }, Fx { raw: RAW_MAX }).expect("must hit");
    // roots at t = 8 and t = 12; the nearer one is reported
    assert_eq!(rec.t.raw, 8 * SCALE);
    // its normal has unit length
    assert_eq!(rec.normal.len().raw, SCALE);
}

#[test]
fn moving_sphere_interpolates_center() {
    let m = MovingSphere::with_values(
        (vec(0, 0, 0), vec(1, 0, 0)),
        fxi(0),
        fxi(1),
        fxi(1),
        grey_material(),
    );
    let mid = m.center(Fx { raw: SCALE / 2 });
    assert_eq!((mid.x.raw, mid.y.raw, mid.z.raw), (SCALE / 2, 0, 0));
    assert_eq!(m.center(fxi(0)).x.raw, 0);
    assert_eq!(m.center(fxi(1)).x.raw, SCALE);
}

// The empty aggregate reports no hit and no box (the tri-state contract).
#[test]
fn empty_list_misses_and_has_no_box() {
    let l = HitableList::new();
    let r = Ray::with_values(vec(0, 0, 0), vec(0, 0, 1), None, false);
    assert!(l.hit(&r, Fx { raw: 66 }, Fx { raw: RAW_MAX }).is_none());
    assert!(l.bounding_box(fxi(0), fxi(1)).is_none());
}

#[test]
fn list_returns_globally_nearest_hit() {
    let mut l = HitableList::new();
    l.put(sphere(0, 0, 10, 1));
    l.put(sphere(0, 0, 4, 1));
    l.put(sphere(0, 0, 7, 1));
    let r = Ray::with_values(vec(0, 0, 0), vec(0, 0, 1), None, false);
    let rec = l.hit(&r, Fx { raw: 66 }, Fx { raw: RAW_MAX }).expect("must hit");
    assert_eq!(rec.t.raw, 3 * SCALE);
}

// The union box contains both inputs entirely.
#[test]
fn surrounding_box_contains_both() {
    let a = Aabb::new(vec(-1, -2, -3), vec(1, 0, 0));
    let b = Aabb::new(vec(0, -1, -5), vec(4, 5, 6));
    let u = raytracer::hitable::surrounding_box(&a, &b);
    for (lo, hi, alo, ahi, blo, bhi) in [
        (u.min.x.raw, u.max.x.raw, a.min.x.raw, a.max.x.raw, b.min.x.raw, b.max.x.raw),
        (u.min.y.raw, u.max.y.raw, a.min.y.raw, a.max.y.raw, b.min.y.raw, b.max.y.raw),
        (u.min.z.raw, u.max.z.raw, a.min.z.raw, a.max.z.raw, b.min.z.raw, b.max.z.raw),
    ] {
        assert!(lo <= alo && lo <= blo);
        assert!(hi >= ahi && hi >= bhi);
    }
}

// The acceleration structure agrees with the flat list on randomized
// scenes: same hit-or-miss answer and the same nearest parameter.
#[test]
fn bvh_matches_flat_list_on_random_scenes() {
    for _trial in 0..1000 {
        let n = 1 + random_below(8);
        let mut params: Vec<(i64, i64, i64, i64)> = Vec::new();
        for _ in 0..n {
            params.push((
                random_below(17) as i64 - 8,
                random_below(17) as i64 - 8,
                random_below(17) as i64 - 8,
                1 + random_below(3) as i64,
            ));
        }
        let mut flat = HitableList::new();
        for &(x, y, z, r) in params.iter() {
            flat.put(sphere(x, y, z, r));
        }
        let mut nodes: Vec<Hitable> = Vec::new();
        for &(x, y, z, r) in params.iter() {
            nodes.push(sphere(x, y, z, r));
        }
        let tree = BvhNode::new(&mut nodes, fxi(0), fxi(1));

        let origin = vec(
            random_below(9) as i64 - 4 - 20,
            random_below(9) as i64 - 4,
            random_below(9) as i64 - 4,
        );
        let dir = Vec3 {
            x: fxi(4).add(random_unit()),
            y: random_unit().sub(Fx { raw: SCALE / 2 }),
            z: random_unit().sub(Fx { raw: SCALE / 2 }),
        };
        let ray = Ray::with_values(origin, dir, None, false);
        let from_flat = flat.hit(&ray, Fx { raw: 66 }, Fx { raw: RAW_MAX });
        let from_tree = tree.hit(&ray, Fx { raw: 66 }, Fx { raw: RAW_MAX });
        match (&from_flat, &from_tree) {
            (Some(a), Some(b)) => assert_eq!(a.t.raw, b.t.raw),
            (None, None) => {},
            _ => panic!("flat list and tree disagree on hit-or-miss"),
        }
    }
}

// A dielectric with unit refractive index passes a head-on ray through
// with zero deviation, never reflecting (run many times: the choice is
// stochastic in general but deterministic here).
#[test]
fn dielectric_with_unit_index_is_transparent() {
    let mat = Material::Dielectric(Dielectric::new(fxi(1)));
    let r = Ray::with_values(vec(0, 0, -5), vec(0, 0, 1), None, false);
    let rec = sphere(0, 0, 0, 1)
        .hit(&r, Fx { raw: 66 }, Fx { raw: RAW_MAX })
        .expect("must hit");
    for _ in 0..100 {
        let (att, scattered) = mat.scatter(&r, &rec).expect("always scatters");
        assert_eq!((att.x.raw, att.y.raw, att.z.raw), (SCALE, SCALE, SCALE));
        // unit(incoming) == (0,0,1): no deviation at all
        assert_eq!(
            (scattered.direction.x.raw, scattered.direction.y.raw, scattered.direction.z.raw),
            (0, 0, SCALE),
        );
    }
}

// A polished metal mirror reflects exactly, and absorbs backward rays.
#[test]
fn metal_mirror_reflects_exactly() {
    let mat = Material::Metal(Metal::new(SolidTexture::new(vec(1, 1, 1)), fxi(0)));
    let r = Ray::with_values(vec(0, 0, -5), vec(0, 0, 1), None, false);
    let rec = sphere(0, 0, 0, 1).hit(&r, Fx { raw: 66 }, Fx { raw: RAW_MAX }).expect("must hit");
    let (_att, scattered) = mat.scatter(&r, &rec).expect("front-facing reflection");
    assert_eq!(
        (scattered.direction.x.raw, scattered.direction.y.raw, scattered.direction.z.raw),
        (0, 0, -SCALE),
    );
}

// The integrator terminates within the depth cutoff even inside a fully
// mirrored enclosure with no absorbing surface.
#[test]
fn integrator_terminates_in_mirror_box() {
    let mirror = Rc::new(Material::Metal(Metal::new(SolidTexture::new(vec(1, 1, 1)), fxi(0))));
    let mut world = HitableList::new();
    world.put(
        Hitable::BoxObj(
            raytracer::hitable::BoxObject::new(vec(-5, -5, -5), vec(5, 5, 5), mirror),
        ),
    );
    let r = Ray::with_values(vec(0, 0, 0), vec(1, 0, 0), None, false);
    // termination is the point; the color itself is whatever bounced back
    let _ = r.color(&world, 0);
}

// Misses return the documented background: black, or white in debug mode.
#[test]
fn integrator_background_policy() {
    let world = HitableList::new();
    let dark = Ray::with_values(vec(0, 0, 0), vec(0, 1, 0), None, false);
    let c = dark.color(&world, 0);
    assert_eq!((c.x.raw, c.y.raw, c.z.raw), (0, 0, 0));
    let lit = Ray::with_values(vec(0, 0, 0), vec(0, 1, 0), None, true);
    let w = lit.color(&world, 0);
    assert_eq!((w.x.raw, w.y.raw, w.z.raw), (SCALE, SCALE, SCALE));
}

// The camera scenario: looking down -z with a 90 degree field of view and
// a closed aperture, the image-plane center maps to direction (0,0,-1).
#[test]
fn camera_center_ray_points_down_minus_z() {
    let cam = Camera::new(
        vec(0, 0, 0),
        vec(0, 0, -1),
        vec(0, 1, 0),
        fxi(90),
        fxi(1),
        fxi(0),
        fxi(1),
        fxi(0),
        fxi(0),
        false,
    );
    let r = cam.get_ray(Fx { raw: SCALE / 2 }, Fx { raw: SCALE / 2 });
    assert_eq!((r.origin.x.raw, r.origin.y.raw, r.origin.z.raw), (0, 0, 0));
    assert_eq!((r.direction.x.raw, r.direction.y.raw, r.direction.z.raw), (0, 0, -SCALE));
}

// Spherical texture coordinates of the +x point of the unit sphere: the
// seam puts it at u == 1/2, v just below 1/2.
#[test]
fn sphere_uv_of_plus_x() {
    let (u, v) = Sphere::get_sphere_uv(vec(1, 0, 0));
    assert_eq!(u.raw, SCALE / 2);
    assert_eq!(v.raw, SCALE / 2 - 1);
}

// The record carries a handle to the very material of the surface that was
// hit: its emission is the light's texture value.
#[test]
fn hit_record_carries_the_surface_material() {
    let light = Rc::new(Material::DiffuseLight(raytracer::material::DiffuseLight::new(
        SolidTexture::new(vec(4, 4, 4)),
    )));
    let s = Hitable::Sphere(Sphere::with_values(vec(0, 0, 0), fxi(1), light));
    let r = Ray::with_values(vec(0, 0, -5), vec(0, 0, 1), None, false);
    let rec = s.hit(&r, Fx { raw: 66 }, Fx { raw: RAW_MAX }).expect("must hit");
    let e = rec.material.emitted(rec.u, rec.v, rec.p);
    assert_eq!((e.x.raw, e.y.raw, e.z.raw), (4 * SCALE, 4 * SCALE, 4 * SCALE));
    // and the emission feeds the integrator: the light is seen directly
    let mut world = HitableList::new();
    world.put(s);
    let c = r.color(&world, 0);
    assert_eq!((c.x.raw, c.y.raw, c.z.raw), (4 * SCALE, 4 * SCALE, 4 * SCALE));
}

// The lens samples stay strictly inside the unit disk and the random
// stream stays in its unit interval.
#[test]
fn random_samples_respect_their_bounds() {
    for _ in 0..1000 {
        let q = random_unit();
        assert!(0 <= q.raw && q.raw < SCALE);
        let d = Ray::random_in_unit_disk();
        assert!(d.squared_len().raw < SCALE);
        assert_eq!(d.z.raw, 0);
        let p = Ray::random_in_sphere();
        assert!(p.squared_len().raw < SCALE);
        assert!(random_below(7) < 7);
    }
}

// Schlick's reflectance at head-on incidence equals the base reflectance
// ((1 - n)/(1 + n))^2; for glass at 1.5 that is 0.04.
#[test]
fn schlick_head_on_value() {
    let r = raytracer::material::schlick(fxi(1), Fx { raw: 98304 });
    assert_eq!(r.raw, 2621);
}

// Snell refraction bends a slanted ray entering a denser medium; total
// internal reflection reports no refracted ray.
#[test]
fn refract_and_total_internal_reflection() {
    // entering glass straight on: no bending
    let straight = raytracer::material::refract(vec(0, 0, 1), vec(0, 0, -1), Fx { raw: 43690 });
    let d = straight.expect("head-on refraction succeeds");
    assert_eq!((d.x.raw, d.y.raw, d.z.raw), (0, 0, SCALE));
    // trying to leave glass at a grazing angle: total internal reflection
    let grazing = raytracer::material::refract(
        Vec3 { x: fxi(1), y: fxi(0), z: Fx { raw: SCALE / 8 } },
        vec(0, 0, -1),
        Fx { raw: 98304 },
    );
    assert!(grazing.is_none());
}

// A panel whose plane parameter falls exactly on either end of the window
// is rejected: hits must lie strictly inside the window.
#[test]
fn rect_rejects_the_window_boundary() {
    let panel = Hitable::RectXy(raytracer::hitable::RectSliceXy::new(
        grey_material(),
        (fxi(-1), fxi(1), fxi(-1), fxi(1), fxi(3)),
    ));
    let r = Ray::with_values(vec(0, 0, 0), vec(0, 0, 1), None, false);
    // the plane sits at t == 3; a window ending exactly there misses
    assert!(panel.hit(&r, Fx { raw: 66 }, fxi(3)).is_none());
    // a window starting exactly there misses too
    assert!(panel.hit(&r, fxi(3), Fx { raw: RAW_MAX }).is_none());
    // a window properly around it hits
    let rec = panel.hit(&r, Fx { raw: 66 }, fxi(4)).expect("must hit");
    assert_eq!(rec.t.raw, 3 * SCALE);
}

// Two coincident panels tie at the same parameter; the scan keeps the
// record of the earlier child (later children face a strictly shrunken
// window).
#[test]
fn list_keeps_the_earlier_record_on_exact_ties() {
    let first = Rc::new(Material::DiffuseLight(raytracer::material::DiffuseLight::new(
        SolidTexture::new(vec(4, 4, 4)),
    )));
    let second = Rc::new(Material::DiffuseLight(raytracer::material::DiffuseLight::new(
        SolidTexture::new(vec(9, 9, 9)),
    )));
    let mut l = HitableList::new();
    l.put(Hitable::RectXy(raytracer::hitable::RectSliceXy::new(
        first,
        (fxi(-1), fxi(1), fxi(-1), fxi(1), fxi(3)),
    )));
    l.put(Hitable::RectXy(raytracer::hitable::RectSliceXy::new(
        second,
        (fxi(-1), fxi(1), fxi(-1), fxi(1), fxi(3)),
    )));
    let r = Ray::with_values(vec(0, 0, 0), vec(0, 0, 1), None, false);
    let rec = l.hit(&r, Fx { raw: 66 }, Fx { raw: RAW_MAX }).expect("must hit");
    assert_eq!(rec.t.raw, 3 * SCALE);
    let e = rec.material.emitted(rec.u, rec.v, rec.p);
    assert_eq!(e.x.raw, 4 * SCALE);
}
