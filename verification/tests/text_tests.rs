use oi_platform::text::char_is_whitespace;
use oi_platform::text::{
    chars_of, concat3, decimal_string, first_chars, join_strings, str_contains, str_eq,
    trim_string, word_count,
};

#[test]
fn trim_removes_unicode_whitespace() {
    assert_eq!(trim_string("  \t hello world \u{3000}\n"), "hello world");
    assert_eq!(trim_string("   "), "");
    assert_eq!(trim_string(""), "");
    assert_eq!(trim_string("x"), "x");
}

#[test]
fn contains_finds_substrings() {
    assert!(str_contains("distributed systems", "system"));
    assert!(!str_contains("distributed", "system"));
    assert!(str_contains("anything", ""));
    assert!(!str_contains("", "a"));
    assert!(str_contains("café au lait", "é a"));
}

#[test]
fn words_are_whitespace_runs() {
    assert_eq!(word_count("  one two\tthree\n\nfour  "), 4);
    assert_eq!(word_count(""), 0);
    assert_eq!(word_count(" \t "), 0);
    assert_eq!(word_count("single"), 1);
}

#[test]
fn prefixes_count_characters() {
    assert_eq!(first_chars("héllo", 2), "hé");
    assert_eq!(first_chars("abc", 10), "abc");
    assert_eq!(first_chars("abc", 0), "");
}

#[test]
fn decimals_match_display() {
    assert_eq!(decimal_string(0), "0");
    assert_eq!(decimal_string(7), "7");
    assert_eq!(decimal_string(42), "42");
    assert_eq!(decimal_string(u64::MAX), u64::MAX.to_string());
}

#[test]
fn joining_puts_separators_between() {
    let parts = vec!["a".to_string(), "b".to_string(), "c".to_string()];
    assert_eq!(join_strings(&parts, ", "), "a, b, c");
    assert_eq!(join_strings(&vec![], ", "), "");
    assert_eq!(join_strings(&vec!["solo".to_string()], "\n"), "solo");
}

#[test]
fn small_string_helpers() {
    assert_eq!(chars_of("ab"), vec!['a', 'b']);
    assert!(str_eq("same", "same"));
    assert!(!str_eq("same", "Same"));
    assert_eq!(concat3("a", "b", "c"), "abc");
}

#[test]
fn whitespace_matches_std() {
    for c in ['\t', '\n', '\u{b}', '\u{c}', '\r', ' ', '\u{85}', '\u{a0}', '\u{1680}', '\u{2000}', '\u{200a}', '\u{2028}', '\u{2029}', '\u{202f}', '\u{205f}', '\u{3000}', 'a', '\u{200b}', '\u{180e}', '0'] {
        assert_eq!(char_is_whitespace(c), c.is_whitespace(), "{:?}", c);
    }
}
