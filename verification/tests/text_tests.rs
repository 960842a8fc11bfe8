use grok_overlay::text::{chars_of, joined, joined3, joined4, contains, is_white_space_char, same_text, trim};

#[test]
fn trim_removes_unicode_white_space_at_both_ends() {
    assert_eq!(trim("  a b  "), "a b");
    assert_eq!(trim("\u{a0}\u{2003}x\u{3000}"), "x");
    assert_eq!(trim(""), "");
    assert_eq!(trim("   "), "");
    assert_eq!(trim("abc"), "abc");
    for s in ["  a b  ", "\t\nCtrl+K\r", " \u{85}x\u{2029}", "", "  "] {
        assert_eq!(trim(s), s.trim());
        assert_eq!(trim(trim(s)), trim(s));
    }
}

#[test]
fn white_space_matches_std() {
    for c in ['\t', '\n', ' ', '\u{85}', '\u{a0}', '\u{1680}', '\u{2000}', '\u{200a}', '\u{2028}',
        '\u{2029}', '\u{202f}', '\u{205f}', '\u{3000}', 'a', '\u{200b}', '\u{180e}', '+', '\u{feff}']
    {
        assert_eq!(is_white_space_char(c), c.is_whitespace(), "{:?}", c);
    }
}

#[test]
fn contains_finds_runs() {
    assert!(contains("file not found", "not found"));
    assert!(contains("abc", ""));
    assert!(!contains("ab", "abc"));
    assert!(!contains("not foun", "not found"));
    assert!(contains("not found", "not found"));
    assert!(contains("(os error 2)", "os error 2"));
}

#[test]
fn text_helpers() {
    assert!(same_text("quit", "quit"));
    assert!(!same_text("quit", "quits"));
    assert!(!same_text("quit", "quip"));
    assert_eq!(chars_of("héllo"), vec!['h', 'é', 'l', 'l', 'o']);
    assert_eq!(joined("a", "b"), "ab");
    assert_eq!(joined3("a", "b", "c"), "abc");
    assert_eq!(joined4("a", "b", "c", "d"), "abcd");
}
