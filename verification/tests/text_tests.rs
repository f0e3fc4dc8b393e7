use catering_calculator::text::{contains, escape_quotes, is_whitespace_char, trim};

#[test]
fn trim_removes_surrounding_whitespace() {
    assert_eq!(trim("  闲鱼 \t\n"), "闲鱼");
    assert_eq!(trim("a b"), "a b");
    assert_eq!(trim("   "), "");
    assert_eq!(trim(""), "");
    assert_eq!(trim("\u{3000}x\u{00a0}"), "x");
}

#[test]
fn trim_matches_std_trim() {
    let samples = ["", " ", "x", " x ", "\u{2028}a\u{200b}", "\u{85}b\u{1680}", "  中 文  "];
    for s in samples.iter() {
        assert_eq!(trim(s), s.trim());
    }
}

#[test]
fn trim_is_idempotent_on_examples() {
    for s in [" a ", "\tb\t", "c"].iter() {
        let once = trim(s);
        assert_eq!(trim(&once), once);
    }
}

#[test]
fn whitespace_matches_std() {
    for c in ['\t', '\n', ' ', '\u{85}', '\u{a0}', '\u{1680}', '\u{2000}', '\u{200a}', '\u{2028}',
              '\u{2029}', '\u{202f}', '\u{205f}', '\u{3000}', 'a', '\u{200b}', '\u{feff}', '0'] {
        assert_eq!(is_whitespace_char(c), c.is_whitespace(), "{:?}", c);
    }
}

#[test]
fn contains_finds_pieces() {
    assert!(contains("闲鱼管家 - 消息", "管家"));
    assert!(contains("abc", ""));
    assert!(contains("abc", "abc"));
    assert!(!contains("abc", "abcd"));
    assert!(!contains("abc", "ac"));
    assert!(contains("aab", "ab"));
    assert!(!contains("", "a"));
}

#[test]
fn escape_quotes_adds_backslashes() {
    assert_eq!(escape_quotes("a\"b\""), "a\\\"b\\\"");
    assert_eq!(escape_quotes("plain"), "plain");
    assert_eq!(escape_quotes(""), "");
    assert_eq!(escape_quotes("\""), "\\\"");
}
