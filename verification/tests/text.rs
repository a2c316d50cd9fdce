use gaia_mcp::text::{appended, decimal, join, parse_unsigned, same_text, trim_end_slashes};

fn owned(parts: &[&str]) -> Vec<String> {
    parts.iter().map(|p| p.to_string()).collect()
}

#[test]
fn trims_slashes_at_the_end_only() {
    assert_eq!(trim_end_slashes("http://a/b///"), "http://a/b");
    assert_eq!(trim_end_slashes("http://a/b"), "http://a/b");
    assert_eq!(trim_end_slashes("///"), "");
    assert_eq!(trim_end_slashes(""), "");
    assert_eq!(trim_end_slashes("/北京/"), "/北京");
    assert_eq!(trim_end_slashes("a/ "), "a/ ");
}

#[test]
fn joins_with_the_separator_between() {
    assert_eq!(join(&owned(&[]), "\n"), "");
    assert_eq!(join(&owned(&["a"]), "\n"), "a");
    assert_eq!(join(&owned(&["a", "", "c"]), "\n"), "a\n\nc");
    assert_eq!(join(&owned(&["a", "b"]), ", "), "a, b");
}

#[test]
fn writes_decimal_numbers() {
    assert_eq!(decimal(0), "0");
    assert_eq!(decimal(10), "10");
    assert_eq!(decimal(9876543210), "9876543210");
    assert_eq!(decimal(u64::MAX), "18446744073709551615");
}

#[test]
fn reads_unsigned_numbers() {
    assert_eq!(parse_unsigned("0"), Some(0));
    assert_eq!(parse_unsigned("007"), Some(7));
    assert_eq!(parse_unsigned("+12"), Some(12));
    assert_eq!(parse_unsigned("18446744073709551615"), Some(u64::MAX));
    assert_eq!(parse_unsigned("18446744073709551616"), None);
    assert_eq!(parse_unsigned("99999999999999999999999"), None);
    for text in ["", "+", "-1", "-0", "++1", " 1", "1 ", "1.0", "x", "1_000", "１"] {
        assert_eq!(parse_unsigned(text), None);
    }
}

#[test]
fn reads_as_the_standard_library_does() {
    for text in ["", "+", "-", "-0", "+0", "00", "1", "+1", "1+", "184467440737095516150", "12a", "é"] {
        assert_eq!(parse_unsigned(text), text.parse::<u64>().ok());
    }
}

#[test]
fn a_decimal_number_reads_back() {
    for n in [0, 1, 9, 10, 99, 100, 12345, u64::MAX - 1, u64::MAX] {
        assert_eq!(parse_unsigned(&decimal(n)), Some(n));
        assert_eq!(decimal(n), n.to_string());
    }
}

#[test]
fn compares_and_concatenates() {
    assert!(same_text("a", "a"));
    assert!(!same_text("a", "A"));
    assert!(!same_text("a", ""));
    assert_eq!(appended("a", "b"), "ab");
    assert_eq!(appended("", ""), "");
}
