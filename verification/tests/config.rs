//! Configuration extraction behaviour: exact decimal parsing, and
//! defaulting of missing or unparsable entries.

use romodoro::config::{extract_table, parse_u64};

#[test]
fn parses_plain_decimal_numerals() {
    assert_eq!(parse_u64("0"), Some(0));
    assert_eq!(parse_u64("7"), Some(7));
    assert_eq!(parse_u64("1200"), Some(1200));
    assert_eq!(parse_u64("0042"), Some(42));
}

#[test]
fn parses_the_largest_u64() {
    assert_eq!(parse_u64("18446744073709551615"), Some(u64::MAX));
}

#[test]
fn rejects_values_past_u64_range() {
    assert_eq!(parse_u64("18446744073709551616"), None);
    assert_eq!(parse_u64("99999999999999999999999"), None);
}

#[test]
fn rejects_non_numerals() {
    assert_eq!(parse_u64(""), None);
    assert_eq!(parse_u64("12a"), None);
    assert_eq!(parse_u64("a12"), None);
    assert_eq!(parse_u64("-5"), None);
    assert_eq!(parse_u64("+5"), None);
    assert_eq!(parse_u64("1 2"), None);
    assert_eq!(parse_u64("1.5"), None);
}

#[test]
fn present_entries_are_taken_verbatim() {
    let t = extract_table(Some("chime".to_string()), Some("1200".to_string()));
    assert_eq!(t.sound, "chime");
    assert_eq!(t.duration_secs, 1200);
}

#[test]
fn missing_entries_default() {
    let t = extract_table(None, None);
    assert_eq!(t.sound, "");
    assert_eq!(t.duration_secs, 0);
}

#[test]
fn unparsable_duration_defaults_to_zero() {
    let t = extract_table(Some("chime".to_string()), Some("twenty".to_string()));
    assert_eq!(t.duration_secs, 0);
    let t = extract_table(None, Some("".to_string()));
    assert_eq!(t.duration_secs, 0);
}
