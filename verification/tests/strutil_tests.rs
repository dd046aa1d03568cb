use auto_commit_rs::strutil::{
    eq_ignore_ascii_case, lower_str, parse_u64, split_char, split_once_char, str_eq, trim_str,
    u64_to_string,
};

#[test]
fn decimal_format_and_parse_round_trip() {
    assert_eq!(u64_to_string(0), "0");
    assert_eq!(u64_to_string(42), "42");
    assert_eq!(u64_to_string(u64::MAX), "18446744073709551615");
    assert_eq!(parse_u64("0"), Some(0));
    assert_eq!(parse_u64("0042"), Some(42));
    assert_eq!(parse_u64("18446744073709551615"), Some(u64::MAX));
    assert_eq!(parse_u64("18446744073709551616"), None);
    assert_eq!(parse_u64(""), None);
    assert_eq!(parse_u64("12x"), None);
    assert_eq!(parse_u64("-1"), None);
}

#[test]
fn trim_and_lower_behave_like_editors_expect() {
    assert_eq!(trim_str("  hello \t"), "hello");
    assert_eq!(trim_str(""), "");
    assert_eq!(trim_str(" \n "), "");
    assert_eq!(lower_str("MiXeD"), "mixed");
    assert!(eq_ignore_ascii_case("TRUE", "true"));
    assert!(!eq_ignore_ascii_case("TRUE", "false"));
    assert!(str_eq("abc", "abc"));
    assert!(!str_eq("abc", "abd"));
}

#[test]
fn splitting_keeps_empty_segments() {
    assert_eq!(split_char("a.b.c", '.'), vec!["a", "b", "c"]);
    assert_eq!(split_char("a..c", '.'), vec!["a", "", "c"]);
    assert_eq!(split_char("", '.'), vec![""]);
    assert_eq!(split_char("tail.", '.'), vec!["tail", ""]);
    assert_eq!(
        split_once_char("key: value: extra", ':'),
        Some(("key".to_string(), " value: extra".to_string()))
    );
    assert_eq!(split_once_char("no separator", ':'), None);
}
