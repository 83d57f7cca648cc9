use viztokens::text::{char_is_white, str_chars, str_contains, str_is_blank};

#[test]
fn blank_strings() {
    assert!(str_is_blank(""));
    assert!(str_is_blank(" \t\r\n"));
    assert!(str_is_blank("\u{3000}\u{a0}"));
    assert!(!str_is_blank("  x "));
}

#[test]
fn whitespace_characters() {
    assert!(char_is_white(' '));
    assert!(char_is_white('\u{2028}'));
    assert!(!char_is_white('a'));
    assert!(!char_is_white('\u{200b}'));
}

#[test]
fn substring_search() {
    assert!(str_contains("hello world", "lo w"));
    assert!(str_contains("abc", ""));
    assert!(str_contains("abc", "abc"));
    assert!(!str_contains("abc", "abcd"));
    assert!(!str_contains("", "a"));
    assert!(str_contains("界界x界", "x界"));
    assert!(!str_contains("aab", "abb"));
}

#[test]
fn chars_of_a_string() {
    assert_eq!(str_chars("a界b"), vec!['a', '界', 'b']);
    assert!(str_chars("").is_empty());
}
