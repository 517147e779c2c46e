use alpaca_extfs::text::{
    contains_char, contains_str, i64_to_decimal, parse_u32, replace_str, starts_with_str, str_equal,
    u64_to_decimal,
};

#[test]
fn decimal_rendering() {
    assert_eq!(u64_to_decimal(0), "0");
    assert_eq!(u64_to_decimal(7), "7");
    assert_eq!(u64_to_decimal(10), "10");
    assert_eq!(u64_to_decimal(12345), "12345");
    assert_eq!(u64_to_decimal(u64::MAX), u64::MAX.to_string());
    assert_eq!(i64_to_decimal(-7), "-7");
    assert_eq!(i64_to_decimal(2133571347), "2133571347");
    assert_eq!(i64_to_decimal(i64::MIN), "-9223372036854775808");
    assert_eq!(i64_to_decimal(i64::MAX), "9223372036854775807");
}

#[test]
fn substring_tests() {
    assert!(contains_str("Bad magic number in super-block", "magic"));
    assert!(!contains_str("Short read", "magic"));
    assert!(contains_str("abc", ""));
    assert!(!contains_str("ab", "abc"));
    assert!(starts_with_str("/dev/disk4", "/dev/disk"));
    assert!(!starts_with_str("/tmp/disk.img", "/dev/disk"));
    assert!(contains_char("/dev/disk4", 's'));
    assert!(!contains_char("/dev/rdi4", 's'));
    assert!(str_equal("hello.txt", "hello.txt"));
    assert!(!str_equal("hello.txt", "hello.tx"));
    assert!(!str_equal("héllo", "hello"));
}

#[test]
fn replace_all_occurrences_left_to_right() {
    assert_eq!(replace_str("/dev/disk4", "/dev/disk", "/dev/rdisk"), "/dev/rdisk4");
    assert_eq!(replace_str("aaa", "aa", "b"), "ba");
    assert_eq!(replace_str("xyz", "q", "r"), "xyz");
    assert_eq!(replace_str("a.b.c", ".", "::"), "a::b::c");
    assert_eq!(replace_str("", "a", "b"), "");
}

#[test]
fn parse_u32_like_from_str() {
    assert_eq!(parse_u32("501"), Some(501));
    assert_eq!(parse_u32("+20"), Some(20));
    assert_eq!(parse_u32("0"), Some(0));
    assert_eq!(parse_u32("007"), Some(7));
    assert_eq!(parse_u32("4294967295"), Some(u32::MAX));
    assert_eq!(parse_u32("4294967296"), None);
    assert_eq!(parse_u32("99999999999999999999"), None);
    assert_eq!(parse_u32(""), None);
    assert_eq!(parse_u32("+"), None);
    assert_eq!(parse_u32("-1"), None);
    assert_eq!(parse_u32("12a"), None);
    assert_eq!(parse_u32(" 1"), None);
    assert_eq!(parse_u32("++1"), None);
    for s in ["501", "+20", "", "+", "-1", "12a", "4294967296", "4294967295", "00"] {
        assert_eq!(parse_u32(s), s.parse::<u32>().ok());
    }
}
