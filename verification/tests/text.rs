use candle_chart::text::{format_number, format_price};

#[test]
fn whole_numbers_in_decimal() {
    assert_eq!(format_number(0), "0");
    assert_eq!(format_number(7), "7");
    assert_eq!(format_number(10), "10");
    assert_eq!(format_number(31), "31");
    assert_eq!(format_number(1_000_000), "1000000");
    assert_eq!(format_number(u64::MAX), "18446744073709551615");
}

#[test]
fn whole_prices_have_no_decimal_point() {
    assert_eq!(format_price(0), "0");
    assert_eq!(format_price(10_000), "1");
    assert_eq!(format_price(1_000_000), "100");
    assert_eq!(format_price(-30_000), "-3");
}

#[test]
fn decimal_places_of_prices_end_without_zeros() {
    assert_eq!(format_price(1_003_000), "100.3");
    assert_eq!(format_price(995_000), "99.5");
    assert_eq!(format_price(1_002_500), "100.25");
    assert_eq!(format_price(1_002_570), "100.257");
    assert_eq!(format_price(1_002_575), "100.2575");
    assert_eq!(format_price(1_000_001), "100.0001");
    assert_eq!(format_price(1_000_010), "100.001");
    assert_eq!(format_price(1_000_100), "100.01");
    assert_eq!(format_price(1), "0.0001");
    assert_eq!(format_price(5_000), "0.5");
}

#[test]
fn negative_prices_carry_a_minus_sign() {
    assert_eq!(format_price(-5_000), "-0.5");
    assert_eq!(format_price(-1), "-0.0001");
    assert_eq!(format_price(-1_002_500), "-100.25");
}

#[test]
fn extreme_prices_are_written_in_full() {
    assert_eq!(format_price(i64::MAX), "922337203685477.5807");
    assert_eq!(format_price(i64::MIN), "-922337203685477.5808");
}
