//! Exact values of the fixed-point scalar operations.

use pathtracer::fx::{fx_add, fx_div, fx_mul, fx_neg, fx_sqrt, fx_sub};

const ONE: i64 = 65536;

#[test]
fn mul_exact_values() {
    // 2.0 * 1.5 == 3.0
    assert_eq!(fx_mul(2 * ONE, 3 * ONE / 2), 3 * ONE);
    // sign handling
    assert_eq!(fx_mul(-2 * ONE, 3 * ONE / 2), -3 * ONE);
    assert_eq!(fx_mul(-2 * ONE, -3 * ONE / 2), 3 * ONE);
    // one is the unit
    assert_eq!(fx_mul(ONE, 12345), 12345);
    assert_eq!(fx_mul(-98765, ONE), -98765);
    // truncation toward zero of the smallest magnitudes
    assert_eq!(fx_mul(1, 1), 0);
    assert_eq!(fx_mul(-1, 1), 0);
}

#[test]
fn mul_saturates() {
    assert_eq!(fx_mul(i64::MAX, 2 * ONE), i64::MAX);
    assert_eq!(fx_mul(i64::MAX, -2 * ONE), i64::MIN);
}

#[test]
fn div_exact_values() {
    assert_eq!(fx_div(ONE, 2 * ONE), ONE / 2);
    assert_eq!(fx_div(-ONE, 2 * ONE), -ONE / 2);
    assert_eq!(fx_div(ONE, -2 * ONE), -ONE / 2);
    // 1 / 12 truncates
    assert_eq!(fx_div(ONE, 12 * ONE), 5461);
    // division by zero is defined as zero
    assert_eq!(fx_div(123456, 0), 0);
}

#[test]
fn add_sub_saturate() {
    assert_eq!(fx_add(i64::MAX, 1), i64::MAX);
    assert_eq!(fx_add(i64::MIN, -1), i64::MIN);
    assert_eq!(fx_sub(i64::MIN, 1), i64::MIN);
    assert_eq!(fx_add(3 * ONE, -ONE), 2 * ONE);
    assert_eq!(fx_neg(i64::MIN), i64::MAX);
    assert_eq!(fx_neg(7), -7);
}

#[test]
fn sqrt_exact_values() {
    assert_eq!(fx_sqrt(ONE), ONE);
    assert_eq!(fx_sqrt(4 * ONE), 2 * ONE);
    assert_eq!(fx_sqrt(9 * ONE), 3 * ONE);
    // sqrt(2) rounds down to 92681/65536
    assert_eq!(fx_sqrt(2 * ONE), 92681);
    assert_eq!(fx_sqrt(0), 0);
    assert_eq!(fx_sqrt(-5 * ONE), 0);
}
