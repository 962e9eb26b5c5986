//! Tests for the fixed-point arithmetic and vector primitives.

use move_and_slide::fixed::{fx_add, fx_div, fx_mul, fx_sub, FX_LIMIT, SCALE};
use move_and_slide::vec2::{v2_add, v2_dist_sq, v2_dot, v2_len, v2_normalize, v2_scale, Vec2};

#[test]
fn fx_mul_exact() {
    // 1.5 * 1.5 == 2.25
    assert_eq!(fx_mul(1_500_000, 1_500_000), 2_250_000);
    // 2 * -3 == -6
    assert_eq!(fx_mul(2 * SCALE, -3 * SCALE), -6 * SCALE);
}

#[test]
fn fx_div_truncates_toward_zero() {
    // 1 / 3 == 0.333333, truncated
    assert_eq!(fx_div(SCALE, 3 * SCALE), 333_333);
    // -1 / 3 == -0.333333: toward zero, not toward negative infinity
    assert_eq!(fx_div(-SCALE, 3 * SCALE), -333_333);
}

#[test]
fn fx_add_saturates() {
    assert_eq!(fx_add(FX_LIMIT, FX_LIMIT), FX_LIMIT);
    assert_eq!(fx_sub(-FX_LIMIT, FX_LIMIT), -FX_LIMIT);
    assert_eq!(fx_add(1, 2), 3);
}

#[test]
fn vector_length_pythagorean() {
    // |(3, 4)| == 5
    let v = Vec2 { x: 3 * SCALE, y: 4 * SCALE };
    assert_eq!(v2_len(v), 5 * SCALE);
    // |(1, 1)| == sqrt(2), truncated
    let d = Vec2 { x: SCALE, y: SCALE };
    assert_eq!(v2_len(d), 1_414_213);
}

#[test]
fn vector_normalize_unit() {
    let v = Vec2 { x: 3 * SCALE, y: 4 * SCALE };
    let (dir, len) = v2_normalize(v).unwrap();
    assert_eq!(len, 5 * SCALE);
    assert_eq!(dir, Vec2 { x: 600_000, y: 800_000 });
    assert!(v2_normalize(Vec2 { x: 0, y: 0 }).is_none());
}

#[test]
fn vector_dot_and_distance() {
    let a = Vec2 { x: 2 * SCALE, y: -SCALE };
    let b = Vec2 { x: 3 * SCALE, y: 4 * SCALE };
    // 2*3 + (-1)*4 == 2
    assert_eq!(v2_dot(a, b), 2 * SCALE);
    let s = v2_scale(a, 2 * SCALE);
    assert_eq!(s, Vec2 { x: 4 * SCALE, y: -2 * SCALE });
    let sum = v2_add(a, b);
    assert_eq!(sum, Vec2 { x: 5 * SCALE, y: 3 * SCALE });
    // |a - a|^2 == 0
    assert_eq!(v2_dist_sq(a, a), 0);
}
