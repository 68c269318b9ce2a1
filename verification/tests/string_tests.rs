use ohim::string::{chars_of, ends_with, find_last, is_ascii_whitespace, is_newline};
use ohim::string::{skip_leading, starts_with, DOMString};

#[test]
fn new_is_empty() {
    assert_eq!(DOMString::new().str(), "");
    assert_eq!(DOMString::default().str(), "");
}

#[test]
fn from_string_keeps_the_text() {
    let s = DOMString::from_string(String::from("héllo"));
    assert_eq!(s.str(), "héllo");
    assert!(s == DOMString::from(String::from("héllo")));
    assert!(s != DOMString::from_string(String::from("hello")));
    assert_eq!(s.clone().str(), "héllo");
}

#[test]
fn push_str_appends() {
    let mut s = DOMString::from_string(String::from("ab"));
    s.push_str("cd");
    assert_eq!(s.str(), "abcd");
    s.push_str("");
    assert_eq!(s.str(), "abcd");
}

#[test]
fn clear_removes_everything() {
    let mut s = DOMString::from_string(String::from("abc"));
    s.clear();
    assert_eq!(s.str(), "");
}

#[test]
fn truncate_counts_bytes() {
    let mut s = DOMString::from_string(String::from("aé b"));
    // 'é' takes two bytes: the first three bytes are "aé".
    s.truncate(3);
    assert_eq!(s.str(), "aé");
    s.truncate(10);
    assert_eq!(s.str(), "aé");
    s.truncate(0);
    assert_eq!(s.str(), "");
}

#[test]
fn strip_newlines_removes_cr_and_lf_only() {
    let mut s = DOMString::from_string(String::from("a\r\nb\nc\rd\te"));
    s.strip_newlines();
    assert_eq!(s.str(), "abcd\te");
    let mut t = DOMString::from_string(String::from("\n\r"));
    t.strip_newlines();
    assert_eq!(t.str(), "");
}

#[test]
fn strip_whitespace_at_both_ends() {
    let mut s = DOMString::from_string(String::from(" \t\n\x0C\r a b \r\n"));
    s.strip_leading_and_trailing_ascii_whitespace();
    assert_eq!(s.str(), "a b");
}

#[test]
fn strip_whitespace_of_blank_and_empty_strings() {
    let mut blank = DOMString::from_string(String::from(" \t \n"));
    blank.strip_leading_and_trailing_ascii_whitespace();
    assert_eq!(blank.str(), "");
    let mut empty = DOMString::new();
    empty.strip_leading_and_trailing_ascii_whitespace();
    assert_eq!(empty.str(), "");
}

#[test]
fn strip_whitespace_keeps_other_space_characters() {
    // U+00A0 and U+000B are no ASCII whitespace.
    let mut s = DOMString::from_string(String::from("\u{a0}x\u{b}"));
    s.strip_leading_and_trailing_ascii_whitespace();
    assert_eq!(s.str(), "\u{a0}x\u{b}");
    let mut t = DOMString::from_string(String::from("x"));
    t.strip_leading_and_trailing_ascii_whitespace();
    assert_eq!(t.str(), "x");
}

#[test]
fn character_classes() {
    for c in ['\t', '\n', '\x0C', '\r', ' '] {
        assert!(is_ascii_whitespace(c));
    }
    for c in ['\x0B', 'a', '\u{a0}', '\0'] {
        assert!(!is_ascii_whitespace(c));
    }
    assert!(is_newline('\r'));
    assert!(is_newline('\n'));
    assert!(!is_newline(' '));
}

#[test]
fn character_helpers() {
    let chars = chars_of("a/b/c");
    assert_eq!(chars, vec!['a', '/', 'b', '/', 'c']);
    assert!(starts_with(&chars, &chars_of("a/")));
    assert!(!starts_with(&chars, &chars_of("b")));
    assert!(starts_with(&chars, &chars_of("")));
    assert!(!starts_with(&chars_of("a"), &chars_of("ab")));
    assert!(ends_with(&chars, &chars_of("/c")));
    assert!(!ends_with(&chars, &chars_of("/b")));
    assert!(!ends_with(&chars_of("c"), &chars_of("/c")));
    assert_eq!(find_last(&chars, 5, '/'), Some(3));
    assert_eq!(find_last(&chars, 3, '/'), Some(1));
    assert_eq!(find_last(&chars, 1, '/'), None);
    assert_eq!(skip_leading(&chars_of("//x/"), 0, '/'), 2);
    assert_eq!(skip_leading(&chars_of("///"), 1, '/'), 3);
    assert_eq!(skip_leading(&chars_of("x"), 0, '/'), 0);
}

#[test]
fn conversions_from_and_to_strings() {
    let s = DOMString::from("héllo");
    assert_eq!(s.str(), "héllo");
    assert!(s.eq_str("héllo"));
    assert!(!s.eq_str("hello"));
    assert!(s == DOMString::from(String::from("héllo")));
    assert_eq!(s.into_string(), String::from("héllo"));
    assert_eq!(DOMString::from("").into_string(), "");
}
