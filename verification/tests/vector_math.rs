//! Exact values of the fixed-point vector arithmetic.

use covid_sim::components::Direction;
use covid_sim::util::{isqrt, mul_fp, vector_length, vector_normalize, vector_normalize_with_len};

#[test]
fn isqrt_exact_values() {
    assert_eq!(isqrt(0), 0);
    assert_eq!(isqrt(1), 1);
    assert_eq!(isqrt(24), 4);
    assert_eq!(isqrt(25), 5);
    assert_eq!(isqrt(26), 5);
    assert_eq!(isqrt(u64::MAX), 4_294_967_295);
}

#[test]
fn vector_length_pythagorean() {
    let v = Direction { x: 3_000_000, y: 4_000_000 };
    assert_eq!(vector_length(&v), 5_000_000);
}

#[test]
fn vector_length_zero() {
    let v = Direction { x: 0, y: 0 };
    assert_eq!(vector_length(&v), 0);
}

#[test]
fn vector_length_rounds_down() {
    let v = Direction { x: 1_000_000, y: 1_000_000 };
    // sqrt(2) * 10^6 = 1414213.56..., rounded down.
    assert_eq!(vector_length(&v), 1_414_213);
}

#[test]
fn vector_normalize_axis_is_exact() {
    let v = Direction { x: 2_000_000, y: 0 };
    let r = vector_normalize(&v);
    assert_eq!(r.x, 1_000_000);
    assert_eq!(r.y, 0);
}

#[test]
fn vector_normalize_pythagorean() {
    let v = Direction { x: 3_000_000, y: 4_000_000 };
    let r = vector_normalize(&v);
    assert_eq!(r.x, 600_000);
    assert_eq!(r.y, 800_000);
}

#[test]
fn vector_normalize_negative_components() {
    let v = Direction { x: -3_000_000, y: 4_000_000 };
    let r = vector_normalize(&v);
    assert_eq!(r.x, -600_000);
    assert_eq!(r.y, 800_000);
}

#[test]
fn vector_normalize_with_len_matches() {
    let v = Direction { x: 1_000_000, y: -1_000_000 };
    let len = vector_length(&v);
    let r = vector_normalize_with_len(&v, len);
    let r2 = vector_normalize(&v);
    assert_eq!(r.x, r2.x);
    assert_eq!(r.y, r2.y);
    // 10^12 / 1414213, truncated toward zero.
    assert_eq!(r.x, 707_107);
    assert_eq!(r.y, -707_107);
}

#[test]
fn vector_normalize_result_near_unit() {
    let v = Direction { x: 1_234_567, y: -876_543 };
    let r = vector_normalize(&v);
    let nx = r.x as f64 / 1_000_000.0;
    let ny = r.y as f64 / 1_000_000.0;
    let norm = (nx * nx + ny * ny).sqrt();
    assert!((norm - 1.0).abs() <= 1.0e-4);
}

#[test]
fn mul_fp_exact_values() {
    assert_eq!(mul_fp(2_000_000, 500_000), 1_000_000);
    assert_eq!(mul_fp(-2_000_000, 500_000), -1_000_000);
    assert_eq!(mul_fp(2_000_000, -500_000), -1_000_000);
    assert_eq!(mul_fp(-2_000_000, -500_000), 1_000_000);
    assert_eq!(mul_fp(33_333, 120_000_000), 3_999_960);
}

#[test]
fn mul_fp_truncates_toward_zero() {
    assert_eq!(mul_fp(1, 999_999), 0);
    assert_eq!(mul_fp(-1, 999_999), 0);
    assert_eq!(mul_fp(3, 500_000), 1);
    assert_eq!(mul_fp(-3, 500_000), -1);
}
