use enki::text::{contains, decimal, ends_with_char, hex_lower, join, str_eq};

#[test]
fn decimal_renders_zero_and_multi_digit_values() {
    assert_eq!(decimal(0), "0");
    assert_eq!(decimal(7), "7");
    assert_eq!(decimal(10), "10");
    assert_eq!(decimal(4096), "4096");
    assert_eq!(decimal(u64::MAX), u64::MAX.to_string());
}

#[test]
fn hex_lower_matches_std_formatting() {
    assert_eq!(hex_lower(0), "0");
    assert_eq!(hex_lower(255), "ff");
    assert_eq!(hex_lower(0xdead_beef), "deadbeef");
    assert_eq!(hex_lower(u64::MAX), format!("{:x}", u64::MAX));
}

#[test]
fn join_inserts_separator_between_parts_only() {
    let parts = vec!["a".to_string(), "bc".to_string(), "d".to_string()];
    assert_eq!(join(&parts, ", "), "a, bc, d");
    assert_eq!(join(&vec![], ", "), "");
    assert_eq!(join(&vec!["x".to_string()], "\n"), "x");
}

#[test]
fn contains_finds_substrings_anywhere() {
    assert!(contains("    return _tmp;", "return"));
    assert!(contains("abc", ""));
    assert!(!contains("ab", "abc"));
    assert!(!contains("retur n", "return"));
    assert!(contains("std::f32::consts::PI", "PI"));
}

#[test]
fn str_eq_and_ends_with_char() {
    assert!(str_eq("f32", "f32"));
    assert!(!str_eq("f32", "f3"));
    assert!(ends_with_char("x = 1;", ';'));
    assert!(!ends_with_char("", ';'));
    assert!(!ends_with_char("x = 1", ';'));
}
