use raytracer::fx::{Fx, RAW_MAX, SCALE};
use raytracer::trig;
use raytracer::vec3::Vec3;

fn fxi(v: i64) -> Fx {
    Fx::from_int(v)
}

#[test]
fn add_and_sub_are_exact() {
    assert_eq!(fxi(2).add(fxi(3)).raw, 5 * SCALE);
    assert_eq!(fxi(2).sub(fxi(5)).raw, -3 * SCALE);
}

#[test]
fn mul_matches_integer_products() {
    assert_eq!(fxi(6).mul(fxi(7)).raw, 42 * SCALE);
    assert_eq!(fxi(-6).mul(fxi(7)).raw, -42 * SCALE);
    // 0.5 * 0.5 == 0.25 exactly at this scale
    assert_eq!(Fx { raw: SCALE / 2 }.mul(Fx { raw: SCALE / 2 }).raw, SCALE / 4);
}

#[test]
fn mul_rounds_toward_minus_infinity() {
    // (1/65536) * (1/65536) rounds down to zero...
    assert_eq!(Fx { raw: 1 }.mul(Fx { raw: 1 }).raw, 0);
    // ...and the negative counterpart rounds down to -1/65536.
    assert_eq!(Fx { raw: -1 }.mul(Fx { raw: 1 }).raw, -1);
}

#[test]
fn div_is_exact_on_exact_quotients() {
    assert_eq!(fxi(42).div(fxi(6)).raw, 7 * SCALE);
    assert_eq!(fxi(1).div(fxi(2)).raw, SCALE / 2);
}

#[test]
fn div_by_zero_saturates_by_sign() {
    assert_eq!(fxi(3).div(fxi(0)).raw, RAW_MAX);
    assert_eq!(fxi(-3).div(fxi(0)).raw, -RAW_MAX);
    assert_eq!(fxi(0).div(fxi(0)).raw, 0);
}

#[test]
fn saturation_at_the_raw_bounds() {
    let big = Fx { raw: RAW_MAX };
    assert_eq!(big.add(big).raw, RAW_MAX);
    assert_eq!(big.neg().add(big.neg()).raw, -RAW_MAX);
}

#[test]
fn sqrt_of_perfect_squares() {
    assert_eq!(fxi(4).sqrt().raw, 2 * SCALE);
    assert_eq!(fxi(1).sqrt().raw, SCALE);
    assert_eq!(fxi(0).sqrt().raw, 0);
    assert_eq!(fxi(-9).sqrt().raw, 0);
    // 0.25 -> 0.5
    assert_eq!(Fx { raw: SCALE / 4 }.sqrt().raw, SCALE / 2);
}

#[test]
fn floor_rounds_toward_minus_infinity() {
    assert_eq!(Fx { raw: 3 * SCALE + 1 }.floor(), 3);
    assert_eq!(Fx { raw: -1 }.floor(), -1);
    assert_eq!(Fx { raw: -SCALE }.floor(), -1);
}

#[test]
fn sin_hits_known_points() {
    // sin(0) == 0
    assert_eq!(trig::sin(Fx { raw: 0 }).raw, 0);
    // sin(pi/2) is close to one
    let s = trig::sin(Fx { raw: trig::HALF_PI });
    assert!((s.raw - SCALE).abs() < 200, "sin(pi/2) = {}", s.raw);
    // sin(pi) is close to zero, sin(-pi/2) close to minus one
    assert!(trig::sin(Fx { raw: trig::PI }).raw.abs() < 200);
    assert!((trig::sin(Fx { raw: -trig::HALF_PI }).raw + SCALE).abs() < 200);
}

#[test]
fn tan_of_quarter_turn_is_about_one() {
    let t = trig::tan(Fx { raw: trig::QUARTER_PI });
    assert!((t.raw - SCALE).abs() < 600, "tan(pi/4) = {}", t.raw);
}

#[test]
fn atan2_quadrants() {
    let one = fxi(1);
    let zero = fxi(0);
    assert_eq!(trig::atan2(zero, zero).raw, 0);
    // atan2(0, 1) == 0, atan2(1, 0) == pi/2
    assert_eq!(trig::atan2(zero, one).raw, 0);
    assert_eq!(trig::atan2(one, zero).raw, trig::HALF_PI);
    assert!(trig::atan2(one, one).raw - trig::QUARTER_PI < 600);
    // opposite quadrant is negative
    assert!(trig::atan2(one.neg(), one).raw < 0);
}

#[test]
fn vector_algebra_is_componentwise() {
    let a = Vec3 { x: fxi(1), y: fxi(2), z: fxi(3) };
    let b = Vec3 { x: fxi(4), y: fxi(5), z: fxi(6) };
    let s = a.add(b);
    assert_eq!((s.x.raw, s.y.raw, s.z.raw), (5 * SCALE, 7 * SCALE, 9 * SCALE));
    assert_eq!(a.dot(b).raw, 32 * SCALE);
    let c = a.cross(b);
    assert_eq!((c.x.raw, c.y.raw, c.z.raw), (-3 * SCALE, 6 * SCALE, -3 * SCALE));
    assert_eq!(a.sub(b).x.raw, -3 * SCALE);
}

#[test]
fn unit_vector_of_axis_vectors_is_exact() {
    let v = Vec3 { x: fxi(0), y: fxi(0), z: fxi(5) };
    let u = v.unit_vector();
    assert_eq!((u.x.raw, u.y.raw, u.z.raw), (0, 0, SCALE));
    assert_eq!(v.len().raw, 5 * SCALE);
    assert_eq!(v.squared_len().raw, 25 * SCALE);
}

#[test]
fn make_unit_vector_updates_in_place() {
    let mut v = Vec3 { x: fxi(3), y: fxi(0), z: fxi(0) };
    v.make_unit_vector();
    assert_eq!((v.x.raw, v.y.raw, v.z.raw), (SCALE, 0, 0));
}
