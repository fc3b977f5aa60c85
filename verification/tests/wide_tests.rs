use liquidity_swap_lock::wide::{checked_mul_div, wide_mul_div, wide_sqrt, Wide};

fn wide(high: u128, low: u128) -> Wide {
    Wide { high, low }
}

#[test]
fn multiples_carry_into_the_upper_half() {
    assert_eq!(Wide::multiple(0, u128::MAX), wide(0, 0));
    assert_eq!(Wide::multiple(1, u128::MAX), wide(0, u128::MAX));
    assert_eq!(Wide::multiple(2, u128::MAX), wide(1, u128::MAX - 1));
    assert_eq!(Wide::multiple(1000, u128::MAX), wide(999, u128::MAX - 999));
    assert_eq!(Wide::multiple(1000, 1 << 127), wide(500, 0));
    assert_eq!(Wide::multiple(3, (1 << 127) + 5), wide(1, (1 << 127) + 15));
    assert_eq!(
        Wide::multiple(u128::from(u64::MAX), u128::MAX),
        wide(u128::from(u64::MAX) - 1, u128::MAX - u128::from(u64::MAX) + 1)
    );
    assert_eq!(Wide::multiple(7, 6), wide(0, 42));
    assert_eq!(Wide::from_u128(42), wide(0, 42));
}

#[test]
fn wide_numbers_add_subtract_and_compare() {
    assert_eq!(wide(1, u128::MAX).plus(&wide(2, 1)), wide(4, 0));
    assert_eq!(wide(1, 5).plus(&wide(2, 6)), wide(3, 11));
    assert_eq!(wide(0, u128::MAX).plus(&wide(0, u128::MAX)), wide(1, u128::MAX - 1));
    assert_eq!(wide(4, 0).minus(&wide(2, 1)), wide(1, u128::MAX));
    assert_eq!(wide(3, 11).minus(&wide(2, 6)), wide(1, 5));
    assert_eq!(wide(3, 11).minus(&wide(3, 11)), wide(0, 0));
    assert!(wide(3, 0).at_least(&wide(2, u128::MAX)));
    assert!(wide(3, 5).at_least(&wide(3, 5)));
    assert!(!wide(3, 4).at_least(&wide(3, 5)));
    assert!(!wide(2, u128::MAX).at_least(&wide(3, 0)));
}

#[test]
fn products_are_divided_without_loss() {
    let most = u128::MAX;
    assert_eq!(checked_mul_div(6, 7, 4), Some(10));
    assert_eq!(checked_mul_div(0, most, 1), Some(0));
    assert_eq!(checked_mul_div(most, 0, 1), Some(0));
    assert_eq!(checked_mul_div(most, most, most), Some(most));
    assert_eq!(checked_mul_div(most, most - 1, most), Some(most - 1));
    assert_eq!(checked_mul_div(most - 1, most - 1, most), Some(most - 2));
    assert_eq!(checked_mul_div(most, 2, 2), Some(most));
    assert_eq!(checked_mul_div(most, 3, 2), None);
    assert_eq!(checked_mul_div(most, 2, 1), None);
    assert_eq!(checked_mul_div(2, most, 1), None);
    assert_eq!(checked_mul_div(1 << 127, 2, 1), None);
    assert_eq!(checked_mul_div((1 << 127) - 1, 2, 1), Some(most - 1));
    assert_eq!(checked_mul_div(1 << 100, 1 << 100, 1 << 80), Some(1 << 120));
    assert_eq!(checked_mul_div(1 << 100, 1 << 100, 1 << 72), None);
    assert_eq!(
        checked_mul_div(
            123_456_789_012_345_678_901_234_567_890,
            987_654_321_098_765_432_109_876_543_210,
            555_555_555_555_555_555_555_555_555_555
        ),
        Some(219478736046639231407133058920)
    );
}

#[test]
fn wide_quotients_take_wide_divisors() {
    let most = u128::MAX;
    assert_eq!(wide_mul_div(&wide(0, 3), 10, &wide(0, 4)), 7);
    assert_eq!(wide_mul_div(&wide(0, 0), most, &wide(5, 0)), 0);
    assert_eq!(wide_mul_div(&wide(5, 0), most, &wide(5, 0)), most);
    // x = 3 * 2^128 + 1, d = 6 * 2^128 + 2: half of b
    assert_eq!(wide_mul_div(&wide(3, 1), most, &wide(6, 2)), most / 2);
    assert_eq!(wide_mul_div(&wide(3, 1), 9, &wide(6, 2)), 4);
    assert_eq!(wide_mul_div(&wide(1, 0), 9, &wide(2, 0)), 4);
    assert_eq!(wide_mul_div(&wide(1, 0), 9, &wide(1, 1)), 8);
}

#[test]
fn products_of_two_amounts_fill_both_halves() {
    let most = u128::MAX;
    assert_eq!(Wide::product(0, most), wide(0, 0));
    assert_eq!(Wide::product(most, 1), wide(0, most));
    assert_eq!(Wide::product(most, most), wide(most - 1, 1));
    assert_eq!(Wide::product(1 << 64, 1 << 64), wide(1, 0));
    assert_eq!(Wide::product(1 << 127, 1 << 127), wide(1 << 126, 0));
    assert_eq!(Wide::product((1 << 64) + 3, (1 << 64) + 5), wide(1, (8 << 64) + 15));
    assert_eq!(Wide::product(6, 7), wide(0, 42));
    assert_eq!(Wide::product(most, 2), wide(1, most - 1));
    assert_eq!(Wide::product(2, most), wide(1, most - 1));
}

#[test]
fn wide_roots_are_rounded_down() {
    let most = u128::MAX;
    assert_eq!(wide_sqrt(&wide(0, 0)), 0);
    assert_eq!(wide_sqrt(&wide(0, 1)), 1);
    assert_eq!(wide_sqrt(&wide(0, 99)), 9);
    assert_eq!(wide_sqrt(&wide(0, 100)), 10);
    assert_eq!(wide_sqrt(&wide(0, most)), u128::from(u64::MAX));
    assert_eq!(wide_sqrt(&wide(1, 0)), 1 << 64);
    assert_eq!(wide_sqrt(&wide(most, most)), most);
    assert_eq!(wide_sqrt(&wide(most - 1, 1)), most);
    assert_eq!(wide_sqrt(&wide(most - 1, 0)), most - 1);
    assert_eq!(wide_sqrt(&Wide::product(1 << 100, 1 << 100)), 1 << 100);
    assert_eq!(wide_sqrt(&Wide::product(12345678901234567890123, 12345678901234567890123)), 12345678901234567890123);
}
