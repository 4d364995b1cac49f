use disk_relocator::text::{is_ws_char, lower_one, to_lower, trim_str};

#[test]
fn trim_removes_unicode_white_space_at_both_ends() {
    assert_eq!(trim_str("  \t a b \n"), "a b");
    assert_eq!(trim_str("\u{3000}\u{85}x\u{2028}"), "x");
    assert_eq!(trim_str(" \u{200B}x"), "\u{200B}x");
    assert_eq!(trim_str("   "), "");
    assert_eq!(trim_str(""), "");
    for s in ["  mixed \t", "\u{A0}nbsp\u{A0}", "plain", "\u{1680}\u{2000}\u{200A}y\u{202F}\u{205F}"] {
        assert_eq!(trim_str(s), s.trim());
    }
    assert!(is_ws_char('\u{0B}'));
    assert!(!is_ws_char('\u{200B}'));
}

#[test]
fn lower_maps_only_ascii_capitals() {
    assert_eq!(to_lower("AbC-Z@[Ä"), "abc-z@[Ä");
    assert_eq!(lower_one('A'), 'a');
    assert_eq!(lower_one('@'), '@');
    for s in ["Telegram Desktop", "ÉCOLE", "WeChat_2"] {
        assert_eq!(to_lower(s), s.to_ascii_lowercase());
    }
}
