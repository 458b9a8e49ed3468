use codevault::digits::parse_u16;
use codevault::digits::u64_to_string;
use codevault::text::contains_str;
use codevault::text::ends_with_str;
use codevault::text::eq_ignore_ascii_case_str;
use codevault::text::join_strs;
use codevault::text::replace_all;
use codevault::text::split_lines;
use codevault::text::starts_with_str;
use codevault::text::str_eq;
use codevault::text::strip_char_str;
use codevault::text::trim_str;

#[test]
fn trimming() {
    assert_eq!(trim_str("  a b \t"), "a b");
    assert_eq!(trim_str(""), "");
    assert_eq!(trim_str(" \r\n "), "");
    assert_eq!(trim_str("x"), "x");
}

#[test]
fn quote_stripping() {
    assert_eq!(strip_char_str("\"\"x\"\"", '"'), "x");
    assert_eq!(strip_char_str("'y'", '\''), "y");
    assert_eq!(strip_char_str("z", '"'), "z");
    assert_eq!(strip_char_str("\"inner\"quote\"", '"'), "inner\"quote");
}

#[test]
fn line_splitting() {
    assert_eq!(split_lines("a\nb"), vec!["a".to_string(), "b".to_string()]);
    assert_eq!(split_lines("a\r\nb\r\n"), vec!["a".to_string(), "b".to_string()]);
    assert_eq!(split_lines(""), Vec::<String>::new());
    assert_eq!(split_lines("\n\n"), vec!["".to_string(), "".to_string()]);
    assert_eq!(split_lines("end\r"), vec!["end\r".to_string()]);
}

#[test]
fn searching() {
    assert!(contains_str("abcdef", "cde"));
    assert!(!contains_str("abcdef", "ced"));
    assert!(contains_str("abc", ""));
    assert!(!contains_str("ab", "abc"));
    assert!(starts_with_str("abc", "ab"));
    assert!(!starts_with_str("abc", "bc"));
    assert!(ends_with_str("abc", "bc"));
    assert!(!ends_with_str("abc", "ab"));
    assert!(str_eq("same", "same"));
    assert!(!str_eq("same", "sane"));
}

#[test]
fn replacing() {
    assert_eq!(replace_all("a/b/c", "/", "."), "a.b.c");
    assert_eq!(replace_all("main.py", ".py", ""), "main");
    assert_eq!(replace_all("aaa", "aa", "b"), "ba");
    assert_eq!(replace_all("x", "", "y"), "x");
    assert_eq!(replace_all("v1v2v", "v", ""), "12");
}

#[test]
fn case_insensitive_equality() {
    assert!(eq_ignore_ascii_case_str("Config", "config"));
    assert!(eq_ignore_ascii_case_str("STATIC", "static"));
    assert!(!eq_ignore_ascii_case_str("statics", "static"));
}

#[test]
fn joining() {
    let parts = vec!["a".to_string(), "b".to_string(), "c".to_string()];
    assert_eq!(join_strs(&parts, "|"), "a|b|c");
    assert_eq!(join_strs(&Vec::new(), "|"), "");
}

#[test]
fn decimal_rendering() {
    assert_eq!(u64_to_string(0), "0");
    assert_eq!(u64_to_string(7), "7");
    assert_eq!(u64_to_string(65535), "65535");
    assert_eq!(u64_to_string(1000000007), "1000000007");
}

#[test]
fn port_parsing() {
    assert_eq!(parse_u16("8080"), Some(8080));
    assert_eq!(parse_u16("+8080"), Some(8080));
    assert_eq!(parse_u16("0"), Some(0));
    assert_eq!(parse_u16("65535"), Some(65535));
    assert_eq!(parse_u16("65536"), None);
    assert_eq!(parse_u16("999999999999"), None);
    assert_eq!(parse_u16(""), None);
    assert_eq!(parse_u16("+"), None);
    assert_eq!(parse_u16("12a"), None);
    assert_eq!(parse_u16("-1"), None);
    assert_eq!(parse_u16(" 1"), None);
}
