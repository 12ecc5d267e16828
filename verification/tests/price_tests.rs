use stock_tui::price::{change, percent_change, PERCENT_SCALE, PRICE_SCALE, RATIO_SCALE};

#[test]
fn scales_are_consistent() {
    assert_eq!(PRICE_SCALE, 10_000);
    assert_eq!(PERCENT_SCALE, 10_000);
    assert_eq!(RATIO_SCALE, 100 * PERCENT_SCALE);
}

#[test]
fn percent_change_is_zero_without_previous_close() {
    assert_eq!(percent_change(0, 0), 0);
    assert_eq!(percent_change(1_234_500, 0), 0);
    assert_eq!(percent_change(-1, 0), 0);
    assert_eq!(percent_change(i64::MAX, 0), 0);
}

#[test]
fn percent_change_of_a_rise() {
    // 110.00 after 100.00 is +10 %.
    assert_eq!(percent_change(1_100_000, 1_000_000), 100_000);
    // 101.25 after 100.00 is +1.25 %.
    assert_eq!(percent_change(1_012_500, 1_000_000), 12_500);
}

#[test]
fn percent_change_of_a_fall() {
    // 90.00 after 100.00 is -10 %.
    assert_eq!(percent_change(900_000, 1_000_000), -100_000);
    assert_eq!(percent_change(0, 1_000_000), -1_000_000);
}

#[test]
fn percent_change_drops_the_fraction_toward_zero() {
    // 1/3 of 100 % is 33.3333... %.
    assert_eq!(percent_change(4, 3), 333_333);
    assert_eq!(percent_change(2, 3), -333_333);
    // 2/3 of 100 % is 66.6666... %.
    assert_eq!(percent_change(5, 3), 666_666);
    assert_eq!(percent_change(1, 3), -666_666);
}

#[test]
fn percent_change_with_negative_previous_close() {
    assert_eq!(percent_change(-2, -3), -333_333);
    assert_eq!(percent_change(-4, -3), 333_333);
    assert_eq!(percent_change(3, -3), -2_000_000);
}

#[test]
fn percent_change_of_equal_prices_is_zero() {
    assert_eq!(percent_change(7, 7), 0);
    assert_eq!(percent_change(-7, -7), 0);
    assert_eq!(percent_change(i64::MIN, i64::MIN), 0);
}

#[test]
fn percent_change_at_the_ends_of_the_range() {
    assert_eq!(
        percent_change(i64::MAX, -1),
        -((i64::MAX as i128 + 1) * 1_000_000)
    );
    assert_eq!(
        percent_change(i64::MIN, 1),
        (i64::MIN as i128 - 1) * 1_000_000
    );
    assert_eq!(
        percent_change(i64::MAX, i64::MIN),
        -((u64::MAX as i128 * 1_000_000) / (1i128 << 63))
    );
}

#[test]
fn percent_change_multiplied_back_stays_within_one_previous_close() {
    let cases: Vec<(i64, i64)> = vec![
        (1_234_567, 1_000_003),
        (999_999, 1_000_003),
        (-5, 7),
        (5, -7),
        (-5, -7),
        (i64::MAX, 3),
        (i64::MIN, 3),
        (17, i64::MAX),
    ];
    for (price, previous_close) in cases {
        let exact = (price as i128 - previous_close as i128) * 1_000_000;
        let back = percent_change(price, previous_close) * previous_close as i128;
        assert!(back.abs() <= exact.abs());
        assert!((exact - back).abs() < (previous_close as i128).abs());
        assert!(exact.signum() * back.signum() >= 0);
    }
}

#[test]
fn change_is_the_difference() {
    assert_eq!(change(1_100_000, 1_000_000), 100_000);
    assert_eq!(change(900_000, 1_000_000), -100_000);
    assert_eq!(change(i64::MIN, i64::MAX), i64::MIN as i128 - i64::MAX as i128);
}
