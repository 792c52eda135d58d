use particles::num::{clamp_i64, div_trunc_i128, isqrt_u64};
use particles::vec2::Vec2;

#[test]
fn div_trunc_rounds_toward_zero() {
    assert_eq!(div_trunc_i128(7, 2), 3);
    assert_eq!(div_trunc_i128(-7, 2), -3);
    assert_eq!(div_trunc_i128(-1, 20), 0);
    assert_eq!(div_trunc_i128(0, 5), 0);
    assert_eq!(div_trunc_i128(-1000, 20), -50);
}

#[test]
fn isqrt_exact_and_floor() {
    assert_eq!(isqrt_u64(0), 0);
    assert_eq!(isqrt_u64(1), 1);
    assert_eq!(isqrt_u64(24), 4);
    assert_eq!(isqrt_u64(25), 5);
    assert_eq!(isqrt_u64(26), 5);
    assert_eq!(isqrt_u64(81_000_000), 9000);
    assert_eq!(isqrt_u64(u64::MAX), 0xFFFF_FFFF);
}

#[test]
fn clamp_limits() {
    assert_eq!(clamp_i64(5, 0, 10), 5);
    assert_eq!(clamp_i64(-5, 0, 10), 0);
    assert_eq!(clamp_i64(15, 0, 10), 10);
}

#[test]
fn vec_add_accumulates() {
    let mut v = Vec2 { x: 3, y: -4 };
    v.add(&Vec2 { x: 10, y: 10 });
    assert_eq!(v.x, 13);
    assert_eq!(v.y, 6);
}

#[test]
fn vec_mult_returns_scaled_copy() {
    let v = Vec2 { x: 3, y: -4 };
    let w = v.mult(-2);
    assert_eq!(w.x, -6);
    assert_eq!(w.y, 8);
    assert_eq!(v.x, 3, "mult must not mutate its receiver");
    assert_eq!(v.y, -4);
}

#[test]
fn vec_magnitude_is_euclidean() {
    let v = Vec2 { x: 3000, y: 4000 };
    assert_eq!(v.get_magnitude(), 5000);
    let w = Vec2 { x: 1, y: 1 };
    assert_eq!(w.get_magnitude(), 1);
}

#[test]
fn vec_normalized_is_scaled_unit() {
    let v = Vec2 { x: 3000, y: 4000 };
    let n = v.normalized();
    assert_eq!(n.x, 600_000);
    assert_eq!(n.y, 800_000);
    let axis = Vec2 { x: -70, y: 0 };
    let na = axis.normalized();
    assert_eq!(na.x, -1_000_000);
    assert_eq!(na.y, 0);
}
