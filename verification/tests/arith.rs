use rebalance::arith::{div_round, mul_div_trunc};

#[test]
fn mul_div_trunc_rounds_toward_zero() {
    assert_eq!(mul_div_trunc(7, 1, 2), Some(3));
    assert_eq!(mul_div_trunc(-7, 1, 2), Some(-3));
    assert_eq!(mul_div_trunc(7, 1, -2), Some(-3));
    assert_eq!(mul_div_trunc(-7, 1, -2), Some(3));
    assert_eq!(mul_div_trunc(0, 5, -3), Some(0));
}

#[test]
fn mul_div_trunc_multiplies_before_dividing() {
    assert_eq!(mul_div_trunc(1, 100, 3), Some(33));
    assert_eq!(mul_div_trunc(7_000, 100_000_000_000, 10_000), Some(70_000_000_000));
}

#[test]
fn mul_div_trunc_refuses_zero_divisor() {
    assert_eq!(mul_div_trunc(1, 1, 0), None);
    assert_eq!(mul_div_trunc(0, 0, 0), None);
}

#[test]
fn mul_div_trunc_refuses_product_out_of_range() {
    assert_eq!(mul_div_trunc(i128::MAX, 2, 4), None);
    assert_eq!(mul_div_trunc(i128::MIN, -1, 1), None);
    assert_eq!(mul_div_trunc(i128::MAX, 1, 1), Some(i128::MAX));
    assert_eq!(mul_div_trunc(i128::MIN, 1, 1), Some(i128::MIN));
}

#[test]
fn mul_div_trunc_refuses_quotient_out_of_range() {
    assert_eq!(mul_div_trunc(i128::MIN, 1, -1), None);
}

#[test]
fn div_round_sends_half_away_from_zero() {
    assert_eq!(div_round(3, 2), Some(2));
    assert_eq!(div_round(-3, 2), Some(-2));
    assert_eq!(div_round(3, -2), Some(-2));
    assert_eq!(div_round(-3, -2), Some(2));
    assert_eq!(div_round(1, 2), Some(1));
    assert_eq!(div_round(-1, 2), Some(-1));
}

#[test]
fn div_round_goes_to_the_nearest() {
    assert_eq!(div_round(149, 100), Some(1));
    assert_eq!(div_round(150, 100), Some(2));
    assert_eq!(div_round(151, 100), Some(2));
    assert_eq!(div_round(49, 100), Some(0));
    assert_eq!(div_round(-49, 100), Some(0));
    assert_eq!(div_round(0, 7), Some(0));
}

#[test]
fn div_round_refuses_zero_divisor() {
    assert_eq!(div_round(5, 0), None);
}

#[test]
fn div_round_at_the_ends_of_the_range() {
    assert_eq!(div_round(i128::MIN, 1), Some(i128::MIN));
    assert_eq!(div_round(i128::MIN, -1), None);
    assert_eq!(div_round(i128::MAX, 1), Some(i128::MAX));
    assert_eq!(div_round(i128::MAX, -1), Some(-i128::MAX));
    assert_eq!(div_round(i128::MAX, 2), Some(i128::MAX / 2 + 1));
    assert_eq!(div_round(i128::MIN, 2), Some(i128::MIN / 2));
    assert_eq!(div_round(1, i128::MIN), Some(0));
    assert_eq!(div_round(i128::MIN, i128::MIN), Some(1));
}

#[test]
fn rounding_stays_within_its_bounds() {
    for x in -50..=50i128 {
        for d in [-7i128, -2, -1, 1, 2, 3, 10] {
            let t = mul_div_trunc(x, 1, d).unwrap();
            assert!((t * d).abs() <= x.abs() && x.abs() < (t * d).abs() + d.abs());
            let r = div_round(x, d).unwrap();
            assert!(2 * (x - r * d).abs() <= d.abs());
        }
    }
}
