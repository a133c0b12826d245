use orcs::text::{
    chars_of, find_chars, is_blank, line_ranges, parse_u64, parse_usize, str_eq, text_less,
    trim_chars,
};
use orcs::uuid_text::{generate_uuid_from_name, is_valid_uuid, uuid_or_from_name};

#[test]
fn uuid_forms_are_recognised() {
    assert!(is_valid_uuid("550e8400-e29b-41d4-a716-446655440000"));
    assert!(is_valid_uuid("550e8400e29b41d4a716446655440000"));
    assert!(is_valid_uuid("{550e8400-e29b-41d4-a716-446655440000}"));
    assert!(is_valid_uuid("urn:uuid:550e8400-e29b-41d4-a716-446655440000"));
    assert!(!is_valid_uuid("mai"));
    assert!(!is_valid_uuid("550e8400-e29b-41d4-a716-44665544000"));
}

#[test]
fn name_based_uuid_is_stable_and_valid() {
    let a = generate_uuid_from_name("Mai");
    let b = generate_uuid_from_name("Mai");
    let c = generate_uuid_from_name("Yui");
    assert_eq!(a, b);
    assert_ne!(a, c);
    assert!(is_valid_uuid(&a));
    assert_eq!(a.len(), 36);
}

#[test]
fn uuid_or_from_name_keeps_uuids() {
    let id = "550e8400-e29b-41d4-a716-446655440000".to_string();
    assert_eq!(uuid_or_from_name(id.clone(), "x"), id);
    assert_eq!(uuid_or_from_name("mai".to_string(), "Mai"), generate_uuid_from_name("Mai"));
}

#[test]
fn blank_and_equality() {
    assert!(is_blank(""));
    assert!(is_blank(" \t\r\n"));
    assert!(!is_blank(" a "));
    assert!(str_eq("abc", "abc"));
    assert!(!str_eq("abc", "abd"));
    assert!(!str_eq("abc", "ab"));
}

#[test]
fn lines_split_on_newline_and_strip_cr() {
    let chars = chars_of("a\r\nbb\n\nc");
    let r = line_ranges(&chars);
    assert_eq!(r, vec![(0, 1), (3, 5), (6, 6), (7, 8)]);
    let chars = chars_of("x\n");
    assert_eq!(line_ranges(&chars), vec![(0, 1)]);
}

#[test]
fn decimal_parsing() {
    let c = chars_of("+42x");
    assert_eq!(parse_usize(&c, 0, 3), Some(42));
    assert_eq!(parse_usize(&c, 0, 4), None);
    assert_eq!(parse_usize(&c, 0, 0), None);
    let c = chars_of("18446744073709551615 18446744073709551616");
    assert_eq!(parse_u64(&c, 0, 20), Some(u64::MAX));
    assert_eq!(parse_u64(&c, 21, 41), None);
}

#[test]
fn find_and_trim() {
    let c = chars_of("  hello world  ");
    let w = chars_of("world");
    assert_eq!(find_chars(&c, 0, c.len(), &w), Some(8));
    assert_eq!(find_chars(&c, 0, 10, &w), None);
    assert_eq!(trim_chars(&c, 0, c.len()), "hello world");
    assert_eq!(trim_chars(&c, 0, 2), "");
}

#[test]
fn text_order_is_code_point_lexicographic() {
    assert!(text_less("2024-01-01", "2024-02-01"));
    assert!(!text_less("2024-02-01", "2024-01-01"));
    assert!(text_less("abc", "abcd"));
    assert!(!text_less("abc", "abc"));
    assert!(text_less("B", "a"));
    assert_eq!(text_less("é", "z"), "é" < "z");
}
