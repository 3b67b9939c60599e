use carbon_auction::error::ErrorCode;
use carbon_auction::pricing::calculate_current_price;

#[test]
fn price_before_start_is_the_start_price() {
    assert_eq!(calculate_current_price(100, 10, 50, 1050, 0), Ok(100));
    assert_eq!(calculate_current_price(100, 10, 50, 1050, -7), Ok(100));
}

#[test]
fn price_at_start_time_is_the_start_price() {
    assert_eq!(calculate_current_price(100, 10, 0, 1000, 0), Ok(100));
    assert_eq!(calculate_current_price(7_000_000, 1, -20, 20, -20), Ok(7_000_000));
}

#[test]
fn price_from_end_time_on_is_the_reserve_price() {
    assert_eq!(calculate_current_price(100, 10, 0, 1000, 1000), Ok(10));
    assert_eq!(calculate_current_price(100, 10, 0, 1000, 1001), Ok(10));
    assert_eq!(calculate_current_price(100, 10, 0, 1000, i64::MAX), Ok(10));
}

#[test]
fn price_halfway_is_halfway() {
    assert_eq!(calculate_current_price(100, 10, 0, 1000, 500), Ok(55));
}

#[test]
fn price_rounds_the_decay_down() {
    // 90 * 1 / 1000 = 0.09: nothing has been taken off yet.
    assert_eq!(calculate_current_price(100, 10, 0, 1000, 1), Ok(100));
    // 90 * 12 / 1000 = 1.08
    assert_eq!(calculate_current_price(100, 10, 0, 1000, 12), Ok(99));
    // 90 * 999 / 1000 = 89.91
    assert_eq!(calculate_current_price(100, 10, 0, 1000, 999), Ok(11));
    // 90 * 334 / 1000 = 30.06 and 90 * 667 / 1000 = 60.03
    assert_eq!(calculate_current_price(100, 10, 0, 1000, 334), Ok(70));
    assert_eq!(calculate_current_price(100, 10, 0, 1000, 667), Ok(40));
}

#[test]
fn price_multiplies_before_it_divides() {
    // Dividing first would take 3 / 7 = 0 times the elapsed time off.
    assert_eq!(calculate_current_price(13, 10, 0, 7, 5), Ok(11));
    // 1 * 999_999 / 1_000_000 = 0
    assert_eq!(calculate_current_price(11, 10, 0, 1_000_000, 999_999), Ok(11));
}

#[test]
fn price_uses_a_wide_intermediate() {
    // The product (2^64 - 1) * 2^63 does not fit 64 bits, and the time span
    // does not fit an i64.
    let price = calculate_current_price(u64::MAX, 0, i64::MIN, i64::MAX, 0);
    assert_eq!(price, Ok(9_223_372_036_854_775_807));
    let late = calculate_current_price(u64::MAX, 0, i64::MIN, i64::MAX, i64::MAX - 1);
    assert_eq!(late, Ok(1));
    let early = calculate_current_price(u64::MAX, 0, i64::MIN, i64::MAX, i64::MIN + 1);
    assert_eq!(early, Ok(u64::MAX - 1));
}

#[test]
fn price_stays_within_bounds() {
    let mut now: i64 = -50;
    while now <= 1100 {
        let price = calculate_current_price(1_000, 250, 0, 977, now).unwrap();
        assert!(250 <= price && price <= 1_000, "price {} at {}", price, now);
        now += 1;
    }
}

#[test]
fn price_never_rises() {
    let mut last = calculate_current_price(1_000, 250, 0, 977, -50).unwrap();
    let mut now: i64 = -49;
    while now <= 1100 {
        let price = calculate_current_price(1_000, 250, 0, 977, now).unwrap();
        assert!(price <= last, "price rose from {} to {} at {}", last, price, now);
        last = price;
        now += 1;
    }
    assert_eq!(last, 250);
}

#[test]
fn price_with_equal_start_and_reserve_is_flat() {
    assert_eq!(calculate_current_price(10, 10, 0, 1000, 500), Ok(10));
}

#[test]
fn price_between_inverted_prices_is_an_overflow() {
    assert_eq!(
        calculate_current_price(10, 100, 0, 1000, 500),
        Err(ErrorCode::MathOverflow)
    );
    // Outside the window nothing is interpolated.
    assert_eq!(calculate_current_price(10, 100, 0, 1000, 0), Ok(10));
    assert_eq!(calculate_current_price(10, 100, 0, 1000, 1000), Ok(100));
}

#[test]
fn price_of_an_empty_window_is_the_reserve_price() {
    assert_eq!(calculate_current_price(100, 10, 5, 5, 5), Ok(10));
    assert_eq!(calculate_current_price(100, 10, 5, 5, 4), Ok(100));
}
