use boids::fixed::{
    fp_abs, fp_add, fp_cos, fp_div, fp_mul, fp_neg, fp_scale, fp_sin, fp_sqrt, fp_sub, HALF_PI_FP,
    PI_FP, SCALE, TAU_FP,
};
use boids::rand::{frand01, hash_u32};
use boids::vec2::Vec2;

#[test]
fn mul_exact_products() {
    assert_eq!(fp_mul(2 * SCALE, 3 * SCALE), 6 * SCALE);
    assert_eq!(fp_mul(-2 * SCALE, 3 * SCALE), -6 * SCALE);
    assert_eq!(fp_mul(123456, 0), 0);
    assert_eq!(fp_mul(0, -987), 0);
}

#[test]
fn mul_truncates_toward_zero() {
    // (2^-16)^2 underflows to zero in either sign.
    assert_eq!(fp_mul(1, 1), 0);
    assert_eq!(fp_mul(-1, 1), 0);
}

#[test]
fn mul_saturates_at_i64_range() {
    assert_eq!(fp_mul(i64::MAX, i64::MAX), i64::MAX);
    assert_eq!(fp_mul(i64::MIN, i64::MAX), i64::MIN);
}

#[test]
fn div_exact_quotients() {
    assert_eq!(fp_div(6 * SCALE, 2 * SCALE), 3 * SCALE);
    assert_eq!(fp_div(SCALE, 2 * SCALE), SCALE / 2);
    assert_eq!(fp_div(-SCALE, 2 * SCALE), -SCALE / 2);
}

#[test]
fn add_sub_saturate() {
    assert_eq!(fp_add(i64::MAX, 1), i64::MAX);
    assert_eq!(fp_sub(i64::MIN, 1), i64::MIN);
    assert_eq!(fp_add(2 * SCALE, 3 * SCALE), 5 * SCALE);
    assert_eq!(fp_neg(i64::MIN), i64::MAX);
    assert_eq!(fp_abs(i64::MIN), i64::MAX);
    assert_eq!(fp_abs(-7), 7);
    assert_eq!(fp_scale(10, SCALE), 10 * SCALE);
}

#[test]
fn sqrt_exact_squares() {
    assert_eq!(fp_sqrt(4 * SCALE), 2 * SCALE);
    assert_eq!(fp_sqrt(SCALE), SCALE);
    assert_eq!(fp_sqrt(25 * SCALE), 5 * SCALE);
    assert_eq!(fp_sqrt(0), 0);
    assert_eq!(fp_sqrt(-5), 0);
    // sqrt(2) rounds down to 92681/65536.
    assert_eq!(fp_sqrt(2 * SCALE), 92681);
}

#[test]
fn sine_landmarks() {
    assert_eq!(fp_sin(0), 0);
    assert_eq!(fp_sin(PI_FP), 0);
    assert_eq!(fp_sin(HALF_PI_FP), 65535);
    assert_eq!(fp_sin(PI_FP + HALF_PI_FP), -65535);
    assert_eq!(fp_cos(0), fp_sin(HALF_PI_FP));
    assert_eq!(fp_sin(TAU_FP), -fp_sin(TAU_FP - PI_FP));
}

#[test]
fn xorshift_known_values() {
    assert_eq!(hash_u32(1), 270369);
    assert_eq!(hash_u32(42), 11355432);
}

#[test]
fn frand01_is_deterministic_and_in_range() {
    let mut s: u32 = 1;
    let r = frand01(&mut s);
    assert_eq!(s, 270369);
    assert_eq!(r, 1056);
    let mut s2: u32 = 1;
    assert_eq!(frand01(&mut s2), r);
    for _ in 0..1000 {
        let v = frand01(&mut s);
        assert!(0 <= v && v <= SCALE);
    }
}

#[test]
fn vec2_arithmetic() {
    let v = Vec2::new(3 * SCALE, 4 * SCALE);
    assert_eq!(v.length_squared(), 25 * SCALE);
    assert_eq!(v.length(), 5 * SCALE);
    let n = v.normalized();
    assert_eq!((n.x, n.y), (39321, 52428));
    let w = Vec2::new(SCALE, -SCALE);
    let s = v.add(w);
    assert_eq!((s.x, s.y), (4 * SCALE, 3 * SCALE));
    let d = v.sub(w);
    assert_eq!((d.x, d.y), (2 * SCALE, 5 * SCALE));
    assert_eq!(v.dot(w), -SCALE);
    let h = v.scale(SCALE / 2);
    assert_eq!((h.x, h.y), (3 * SCALE / 2, 2 * SCALE));
}

#[test]
fn vec2_normalized_zero_is_identity() {
    let z = Vec2::new(0, 0);
    let n = z.normalized();
    assert_eq!((n.x, n.y), (0, 0));
}

#[test]
fn vec2_limit() {
    let v = Vec2::new(3 * SCALE, 4 * SCALE);
    let kept = v.limit(6 * SCALE);
    assert_eq!((kept.x, kept.y), (v.x, v.y));
    let cut = v.limit(5 * SCALE / 2);
    assert_eq!((cut.x, cut.y), (3 * SCALE / 2, 2 * SCALE));
}
