use blog_api::text::contains_char;
use blog_api::text::fmt_i32;
use blog_api::text::fmt_i64;
use blog_api::text::is_valid_email;
use blog_api::text::normalize_email;
use blog_api::text::normalize_locale;
use blog_api::text::parse_i64;
use blog_api::text::parse_u16;
use blog_api::text::split_str;
use blog_api::text::str_eq_chars;
use blog_api::text::strip_prefix_str;
use blog_api::text::trim_end_slashes;
use blog_api::text::url_encode;

#[test]
fn emails_are_trimmed_and_lowercased() {
    assert_eq!(normalize_email("  Foo@Bar.COM \n"), "foo@bar.com");
    assert_eq!(normalize_email("x@y.z"), "x@y.z");
    assert_eq!(normalize_email(""), "");
}

#[test]
fn email_validity_needs_at_and_dot() {
    assert!(is_valid_email("a@b.c"));
    assert!(!is_valid_email("a@bc"));
    assert!(!is_valid_email("ab.c"));
    assert!(!is_valid_email(""));
}

#[test]
fn contains_and_equality_helpers() {
    assert!(contains_char("hello", 'e'));
    assert!(!contains_char("hello", 'z'));
    assert!(str_eq_chars("abc", "abc"));
    assert!(!str_eq_chars("abc", "abd"));
    assert!(!str_eq_chars("abc", "ab"));
}

#[test]
fn locale_defaults_to_korean() {
    assert_eq!(normalize_locale(Some("en")), "en");
    assert_eq!(normalize_locale(Some("fr")), "ko");
    assert_eq!(normalize_locale(Some("ko")), "ko");
    assert_eq!(normalize_locale(None), "ko");
}

#[test]
fn trailing_slashes_are_removed() {
    assert_eq!(trim_end_slashes("http://x///"), "http://x");
    assert_eq!(trim_end_slashes("http://x"), "http://x");
    assert_eq!(trim_end_slashes("///"), "");
    assert_eq!(trim_end_slashes(""), "");
}

#[test]
fn split_matches_std() {
    for s in ["a,b,,c", "", ",", "a", ",,", "x,"] {
        let ours = split_str(s, ',');
        let std: Vec<&str> = s.split(',').collect();
        assert_eq!(ours.len(), std.len(), "input {:?}", s);
        for (o, t) in ours.iter().zip(std.iter()) {
            assert_eq!(o, t, "input {:?}", s);
        }
    }
}

#[test]
fn strip_prefix_matches_std() {
    assert_eq!(strip_prefix_str("data: x", "data: "), Some("x"));
    assert_eq!(strip_prefix_str("data:x", "data: "), None);
    assert_eq!(strip_prefix_str("abc", "abcd"), None);
    assert_eq!(strip_prefix_str("abc", ""), Some("abc"));
}

#[test]
fn parse_i64_matches_std() {
    for s in [
        "0",
        "123",
        "-123",
        "+42",
        "",
        "abc",
        "12x",
        " 1",
        "9223372036854775807",
        "-9223372036854775808",
        "9223372036854775808",
        "-9223372036854775809",
        "+",
        "-",
        "00",
        "-0",
    ] {
        assert_eq!(parse_i64(s), s.parse::<i64>().ok(), "input {:?}", s);
    }
}

#[test]
fn parse_u16_matches_std() {
    for s in ["587", "0", "65535", "65536", "+1", "-1", "", "8_0", "007"] {
        assert_eq!(parse_u16(s), s.parse::<u16>().ok(), "input {:?}", s);
    }
}

#[test]
fn integer_formatting_matches_std() {
    for v in [0i64, 1, -1, 10, -10, 587, i64::MAX, i64::MIN, 1000000007, -999] {
        assert_eq!(fmt_i64(v), v.to_string(), "value {}", v);
    }
    assert_eq!(fmt_i32(i32::MIN), i32::MIN.to_string());
    assert_eq!(fmt_i32(15), "15");
}

#[test]
fn url_encoding_matches_reference() {
    for s in ["a+b@c.com", "hello world", "safe-._~", "한글", "", "100%"] {
        assert_eq!(url_encode(s), urlencoding::encode(s).into_owned(), "input {:?}", s);
    }
    assert_eq!(url_encode("a+b@c.com"), "a%2Bb%40c.com");
}
