use locat::report::render_analytics;
use locat::report::u64_to_dec;

#[test]
fn renders_empty_report() {
    let entries: Vec<(String, u64)> = Vec::new();
    assert_eq!(render_analytics(&entries), "");
}

#[test]
fn renders_one_line_per_entry_in_order() {
    let entries = vec![("US".to_string(), 1u64), ("FR".to_string(), 2u64)];
    assert_eq!(render_analytics(&entries), "US: 1\nFR: 2\n");
}

#[test]
fn renders_large_counts() {
    let entries = vec![("DE".to_string(), u64::MAX)];
    assert_eq!(render_analytics(&entries), "DE: 18446744073709551615\n");
}

#[test]
fn formats_decimal_exactly() {
    assert_eq!(u64_to_dec(0), "0");
    assert_eq!(u64_to_dec(7), "7");
    assert_eq!(u64_to_dec(10), "10");
    assert_eq!(u64_to_dec(1203), "1203");
    assert_eq!(u64_to_dec(u64::MAX), "18446744073709551615");
}
