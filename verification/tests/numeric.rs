use sysmetrics::percent::{div_rounded_scaled, percentage, used_bytes};

#[test]
fn percentage_of_half_quarter() {
    // 50 of 200 is 25.00%, i.e. 2500 hundredths.
    assert_eq!(percentage(50, 200), 2500);
}

#[test]
fn percentage_one_third_rounds_to_two_decimals() {
    // 1 of 3 is 33.33%, rounded to exactly two decimal places.
    assert_eq!(percentage(1, 3), 3333);
}

#[test]
fn percentage_two_thirds_rounds_half_up() {
    // 2 of 3 is 66.666...%, which rounds to 66.67%.
    assert_eq!(percentage(2, 3), 6667);
}

#[test]
fn percentage_zero_total_is_zero() {
    // The defined convention for a zero total: 0.00%, never an error.
    assert_eq!(percentage(0, 0), 0);
    assert_eq!(percentage(7, 0), 0);
    assert_eq!(percentage(u64::MAX, 0), 0);
}

#[test]
fn percentage_bounds() {
    assert_eq!(percentage(0, 5), 0);
    assert_eq!(percentage(5, 5), 10000);
    assert_eq!(percentage(100, 100), 10000);
}

#[test]
fn percentage_huge_values_stay_finite() {
    // Near-maximal byte counts still produce a sane percentage.
    assert_eq!(percentage(u64::MAX, u64::MAX), 10000);
    assert!(percentage(u64::MAX / 2, u64::MAX) <= 10000);
}

#[test]
fn div_rounded_scaled_divides_once() {
    // 2,500,000 ten-thousandths (250%) over 4 cores is 62.50%.
    assert_eq!(div_rounded_scaled(2_500_000, 4), 6250);
    // 10,050 ten-thousandths (1.005%) over 2 cores is 0.5025%, which
    // rounds once to 0.50% - not up twice to 0.51%.
    assert_eq!(div_rounded_scaled(10_050, 2), 50);
    // The half itself rounds up: 0.005% over 1 core is 0.01%.
    assert_eq!(div_rounded_scaled(50, 1), 1);
    assert_eq!(div_rounded_scaled(49, 1), 0);
}

#[test]
fn div_rounded_scaled_by_one_core_lands_in_hundredths() {
    assert_eq!(div_rounded_scaled(0, 1), 0);
    assert_eq!(div_rounded_scaled(1_234_500, 1), 12345);
}

#[test]
fn used_bytes_is_total_minus_free() {
    assert_eq!(used_bytes(100, 40), 60);
    assert_eq!(used_bytes(100, 0), 100);
    assert_eq!(used_bytes(100, 100), 0);
}

#[test]
fn used_bytes_guards_underflow() {
    // A reading with more free than total degrades to 0 instead of
    // underflowing.
    assert_eq!(used_bytes(40, 100), 0);
}
