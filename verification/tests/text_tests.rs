use blog_backend::text::{i64_to_decimal, parse_i64, prefix_chars, push_json_string, str_eq};

#[test]
fn decimal_text_of_integers() {
    assert_eq!(i64_to_decimal(0), "0");
    assert_eq!(i64_to_decimal(42), "42");
    assert_eq!(i64_to_decimal(-7), "-7");
    assert_eq!(i64_to_decimal(i64::MAX), i64::MAX.to_string());
    assert_eq!(i64_to_decimal(i64::MIN), i64::MIN.to_string());
}

#[test]
fn parse_matches_std_parse() {
    for s in [
        "0", "42", "-42", "+42", "-0", "", "-", "+", "12a", " 1", "1 ", "007",
        "9223372036854775807", "9223372036854775808", "-9223372036854775808",
        "-9223372036854775809", "99999999999999999999999", "١",
    ] {
        assert_eq!(parse_i64(s), s.parse::<i64>().ok(), "input {:?}", s);
    }
}

#[test]
fn decimal_then_parse_gives_back_value() {
    for v in [0i64, 1, -1, 123456789, i64::MAX, i64::MIN] {
        assert_eq!(parse_i64(&i64_to_decimal(v)), Some(v));
    }
}

#[test]
fn json_strings_match_serde_json() {
    for s in ["plain", "quote\"back\\slash", "line\nfeed\ttab\r", "\u{1}\u{8}\u{c}\u{1f}", "é✓", ""] {
        let mut out = String::new();
        push_json_string(&mut out, s);
        assert_eq!(out, serde_json::to_string(s).unwrap());
    }
}

#[test]
fn prefix_and_equality() {
    assert_eq!(prefix_chars("hello", 3), "hel");
    assert_eq!(prefix_chars("hi", 3), "hi");
    assert!(str_eq("abc", "abc"));
    assert!(!str_eq("abc", "abd"));
    assert!(!str_eq("abc", "ab"));
}
