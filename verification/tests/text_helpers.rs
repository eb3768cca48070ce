use rustmailer_core::text::{
    concat_str, i64_to_decimal, parse_unsigned_chars, replace_all, str_contains, str_eq,
    str_eq_ignore_ascii_case, u64_to_decimal,
};

#[test]
fn decimal_rendering_matches_to_string() {
    assert_eq!(u64_to_decimal(0), "0");
    assert_eq!(u64_to_decimal(1024), "1024");
    assert_eq!(u64_to_decimal(u64::MAX), u64::MAX.to_string());
    assert_eq!(i64_to_decimal(-42), "-42");
    assert_eq!(i64_to_decimal(i64::MIN), i64::MIN.to_string());
    assert_eq!(i64_to_decimal(7), "7");
}

#[test]
fn uid_text_reads_back_as_the_uid() {
    for n in [0u32, 7, 10, 4294967295] {
        let text = u64_to_decimal(n as u64);
        assert_eq!(rustmailer_core::message::parse_uid(&text), Some(n));
    }
}

#[test]
fn parsing_follows_str_parse() {
    let chars = |s: &str| s.chars().collect::<Vec<char>>();
    assert_eq!(parse_unsigned_chars(&chars("123"), u32::MAX as u64), Some(123));
    assert_eq!(parse_unsigned_chars(&chars("+7"), u32::MAX as u64), Some(7));
    assert_eq!(parse_unsigned_chars(&chars("4294967296"), u32::MAX as u64), None);
    assert_eq!(parse_unsigned_chars(&chars("4294967295"), u32::MAX as u64), Some(4294967295));
    assert_eq!(parse_unsigned_chars(&chars(""), u32::MAX as u64), None);
    assert_eq!(parse_unsigned_chars(&chars("+"), u32::MAX as u64), None);
    assert_eq!(parse_unsigned_chars(&chars("12a"), u32::MAX as u64), None);
    assert_eq!(parse_unsigned_chars(&chars("-1"), u32::MAX as u64), None);
}

#[test]
fn replacing_and_searching_text() {
    assert_eq!(replace_all("a cid:x b cid:x", "cid:x", "data"), "a data b data");
    assert_eq!(replace_all("aaa", "aa", "b"), "ba");
    assert_eq!(replace_all("abc", "zz", "y"), "abc");
    assert_eq!(replace_all("", "a", "b"), "");
    assert!(str_contains("hello world", "lo w"));
    assert!(str_contains("hello", ""));
    assert!(!str_contains("hello", "hellos"));
    assert!(!str_contains("", "a"));
}

#[test]
fn comparing_and_joining_text() {
    assert!(str_eq("abc", "abc"));
    assert!(!str_eq("abc", "abd"));
    assert!(str_eq_ignore_ascii_case("NaMe", "name"));
    assert!(!str_eq_ignore_ascii_case("name", "names"));
    assert_eq!(concat_str("ab", "cd"), "abcd");
}
