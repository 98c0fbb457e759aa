use cyborgtech::money::{format_money, parse_money};

#[test]
fn parses_two_decimal_prices() {
    assert_eq!(parse_money("100.00"), Some(10000));
    assert_eq!(parse_money("270.00"), Some(27000));
    assert_eq!(parse_money("0.01"), Some(1));
    assert_eq!(parse_money("0.1"), Some(10));
    assert_eq!(parse_money("7"), Some(700));
    assert_eq!(parse_money("1999.99"), Some(199999));
}

#[test]
fn rejects_malformed_prices() {
    assert_eq!(parse_money(""), None);
    assert_eq!(parse_money("."), None);
    assert_eq!(parse_money("100."), None);
    assert_eq!(parse_money(".50"), None);
    assert_eq!(parse_money("100.123"), None);
    assert_eq!(parse_money("10a.00"), None);
    assert_eq!(parse_money("100.0a"), None);
    assert_eq!(parse_money("-5.00"), None);
    assert_eq!(parse_money("1.2.3"), None);
}

#[test]
fn rejects_prices_too_large_for_cents() {
    // u64::MAX cents is 184467440737095516.15; one more digit overflows
    assert_eq!(parse_money("999999999999999999999"), None);
    assert_eq!(parse_money("184467440737095516.15"), Some(u64::MAX));
    assert_eq!(parse_money("184467440737095516.16"), None);
}

#[test]
fn formats_cents_with_two_decimals() {
    assert_eq!(format_money(10000), "100.00");
    assert_eq!(format_money(27000), "270.00");
    assert_eq!(format_money(1), "0.01");
    assert_eq!(format_money(10), "0.10");
    assert_eq!(format_money(199999), "1999.99");
    assert_eq!(format_money(0), "0.00");
}

#[test]
fn format_then_parse_round_trips() {
    for cents in [0u64, 1, 99, 100, 12345, 10_000_000, u64::MAX] {
        let s = format_money(cents);
        assert_eq!(parse_money(&s), Some(cents));
    }
}
