use web_app::text::{chars_of, contains, matches_at, starts_with};

#[test]
fn chars_of_gives_the_characters() {
    assert_eq!(chars_of("héllo"), vec!['h', 'é', 'l', 'l', 'o']);
    assert!(chars_of("").is_empty());
}

#[test]
fn starts_with_checks_the_prefix() {
    assert!(starts_with("Bearer abc", "Bearer "));
    assert!(starts_with("abc", ""));
    assert!(starts_with("", ""));
    assert!(starts_with("abc", "abc"));
    assert!(!starts_with("ab", "abc"));
    assert!(!starts_with("xabc", "abc"));
}

#[test]
fn contains_finds_the_pattern_anywhere() {
    assert!(contains("hello world", "hello"));
    assert!(contains("hello world", "o w"));
    assert!(contains("hello world", "world"));
    assert!(contains("hello world", ""));
    assert!(contains("", ""));
    assert!(contains("aaab", "aab"));
    assert!(!contains("hello world", "worlds"));
    assert!(!contains("", "a"));
    assert!(!contains("abc", "abcd"));
    assert!(contains("naïve café", "ve c"));
}

#[test]
fn matches_at_checks_one_position() {
    let text = chars_of("abcabc");
    let pattern = chars_of("bc");
    assert!(matches_at(&pattern, &text, 1));
    assert!(matches_at(&pattern, &text, 4));
    assert!(!matches_at(&pattern, &text, 0));
    assert!(!matches_at(&pattern, &text, 5));
    assert!(!matches_at(&pattern, &text, 100));
    assert!(matches_at(&chars_of(""), &text, 6));
    assert!(!matches_at(&chars_of(""), &text, 7));
}
