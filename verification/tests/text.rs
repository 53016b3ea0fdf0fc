use crawley::text::{join2, starts_with, to_chars};

#[test]
fn starts_with_compares_characters() {
    assert!(starts_with("javascript:void(0)", "javascript:"));
    assert!(!starts_with("javascript", "javascript:"));
    assert!(!starts_with("Javascript:x", "javascript:"));
    assert!(starts_with("abc", ""));
    assert!(starts_with("", ""));
    assert!(!starts_with("", "a"));
    assert!(starts_with("//x", "/"));
    assert!(starts_with("\u{e9}t\u{e9}", "\u{e9}"));
    assert!(!starts_with("\u{e9}t\u{e9}", "e"));
}

#[test]
fn to_chars_gives_each_character_in_order() {
    assert_eq!(to_chars("a/\u{e9}"), vec!['a', '/', '\u{e9}']);
    assert_eq!(to_chars(""), Vec::<char>::new());
}

#[test]
fn join_appends_in_order() {
    assert_eq!(join2("ab", "cd"), "abcd");
    assert_eq!(join2("", ""), "");
    assert_eq!(join2("http", "://"), "http://");
}
