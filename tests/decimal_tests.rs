use trmnl::decimal::{decimal_string, parse_i32, parse_u32};
use trmnl::text::{find_text, str_eq};

#[test]
fn decimal_writing() {
    assert_eq!(decimal_string(0), "0");
    assert_eq!(decimal_string(9), "9");
    assert_eq!(decimal_string(10), "10");
    assert_eq!(decimal_string(u64::MAX), u64::MAX.to_string());
}

#[test]
fn decimal_reading_matches_std() {
    for s in ["", "+", "-", "0", "007", "+5", "-5", "-0", "4294967295", "4294967296", "99999999999999999999", "12a", " 1", "2147483647", "-2147483648", "-2147483649", "٣"] {
        assert_eq!(parse_u32(s), s.parse::<u32>().ok(), "u32 {:?}", s);
        assert_eq!(parse_i32(s), s.parse::<i32>().ok(), "i32 {:?}", s);
    }
}

#[test]
fn text_helpers() {
    assert!(str_eq("abc", "abc"));
    assert!(!str_eq("abc", "abd"));
    assert_eq!(find_text("a/api/b", "/api/"), Some(1));
    assert_eq!(find_text("abc", "/api/"), None);
    assert_eq!(find_text("éé/x", "/x"), Some(2));
}
