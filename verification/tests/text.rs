use mac_host_commands::text::{chars_of, contains, home, is_blank_text, is_whitespace, trim};

#[test]
fn trim_removes_surrounding_whitespace() {
    assert_eq!(trim("  /opt/veilkey/bin/veilkey-cli\n"), "/opt/veilkey/bin/veilkey-cli");
    assert_eq!(trim("\t\r\n x y \u{3000}"), "x y");
    assert_eq!(trim("\u{85}\u{a0}a\u{2028}"), "a");
    assert_eq!(trim("plain"), "plain");
}

#[test]
fn trim_of_blank_text_is_empty() {
    assert_eq!(trim(""), "");
    assert_eq!(trim(" \n\t "), "");
    assert_eq!(trim("\u{2000}\u{200a}\u{205f}"), "");
}

#[test]
fn trim_agrees_with_std() {
    for s in ["", " a ", "\n\nb c\t", "\u{1680}x\u{202f}", "ä ö", " \u{200b} "] {
        assert_eq!(trim(s), s.trim());
    }
}

#[test]
fn trim_is_idempotent() {
    for s in ["  a b  ", "\t\n", "x", " \u{3000}y\u{3000} "] {
        let once = trim(s);
        assert_eq!(trim(&once), once);
    }
}

#[test]
fn blank_text_is_all_whitespace() {
    assert!(is_blank_text(""));
    assert!(is_blank_text(" \n"));
    assert!(!is_blank_text(" 1234\n"));
    assert!(!is_blank_text("\u{200b}"));
}

#[test]
fn whitespace_matches_std() {
    for c in ['\t', '\n', '\u{b}', '\u{c}', '\r', ' ', '\u{85}', '\u{a0}', '\u{1680}', '\u{2000}', '\u{2005}', '\u{200a}',
        '\u{2028}', '\u{2029}', '\u{202f}', '\u{205f}', '\u{3000}', 'a', '\u{200b}', '\u{feff}', '0', '\u{180e}'] {
        assert_eq!(is_whitespace(c), c.is_whitespace(), "{:?}", c);
    }
}

#[test]
fn contains_finds_infixes() {
    assert!(contains("{\"status\":\"ok\"}", "ok"));
    assert!(contains("ok", "ok"));
    assert!(contains("anything", ""));
    assert!(!contains("o k", "ok"));
    assert!(!contains("", "ok"));
    assert!(contains("source ~/.veilkey.sh\n", ".veilkey.sh"));
    assert!(!contains("source ~/.veilkey", ".veilkey.sh"));
}

#[test]
fn chars_of_keeps_every_char() {
    assert_eq!(chars_of("가a✓"), vec!['가', 'a', '✓']);
}

#[test]
fn home_falls_back_to_default() {
    assert_eq!(home(Some("/home/me".to_string())), "/home/me");
    assert_eq!(home(None), "/Users/jeonghan");
}
