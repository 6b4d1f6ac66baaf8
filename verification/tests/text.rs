use alpm_utils::text::{opt_str_eq, str_eq};

#[test]
fn texts_are_equal_character_for_character() {
    assert!(str_eq("", ""));
    assert!(str_eq("foo", "foo"));
    assert!(!str_eq("foo", "fo"));
    assert!(!str_eq("foo", "fob"));
    assert!(!str_eq("foo", "Foo"));
    assert!(!str_eq("", "a"));
    assert!(str_eq("fo\u{f6}", "fo\u{f6}"));
    assert!(!str_eq("fo\u{f6}", "fo\u{f5}"));
}

#[test]
fn optional_texts_are_equal_when_both_absent_or_same() {
    assert!(opt_str_eq(None, None));
    assert!(opt_str_eq(Some("a"), Some("a")));
    assert!(!opt_str_eq(Some("a"), Some("b")));
    assert!(!opt_str_eq(Some(""), None));
    assert!(!opt_str_eq(None, Some("")));
}
