use torbox_client::text::{
    contains_text, ends_with, is_blank, join, keep_filled, keep_trimmed, truth_word,
};

#[test]
fn white_space_of_every_kind_is_blank() {
    assert!(is_blank(""));
    assert!(is_blank(" \t\r\n\u{b}\u{c}"));
    assert!(is_blank("\u{85}\u{a0}\u{1680}\u{2000}\u{200a}\u{2028}\u{2029}\u{202f}\u{205f}\u{3000}"));
    assert!(!is_blank("\u{200b}"));
    assert!(!is_blank(" x "));
}

#[test]
fn every_character_is_blank_where_it_is_white_space() {
    let mut c: u32 = 0;
    while c <= 0x10ffff {
        if let Some(character) = char::from_u32(c) {
            let expected = matches!(
                c,
                0x9..=0xd
                    | 0x20
                    | 0x85
                    | 0xa0
                    | 0x1680
                    | 0x2000..=0x200a
                    | 0x2028
                    | 0x2029
                    | 0x202f
                    | 0x205f
                    | 0x3000
            );
            assert_eq!(is_blank(&character.to_string()), expected, "{:#x}", c);
        }
        c += 1;
    }
}

#[test]
fn blank_text_is_dropped() {
    assert_eq!(keep_filled(Some("  ".to_string())), None);
    assert_eq!(keep_filled(None), None);
    assert_eq!(keep_filled(Some(" a ".to_string())), Some(" a ".to_string()));
}

#[test]
fn filled_text_is_trimmed() {
    assert_eq!(keep_trimmed(&Some(" \u{3000}a b\n".to_string())), Some("a b".to_string()));
    assert_eq!(keep_trimmed(&Some("\t".to_string())), None);
    assert_eq!(keep_trimmed(&None), None);
}

#[test]
fn trimming_twice_is_trimming_once() {
    let once = keep_trimmed(&Some(" a ".to_string()));
    assert_eq!(keep_trimmed(&once), once);
}

#[test]
fn last_character_is_compared() {
    assert!(ends_with("päth/", '/'));
    assert!(ends_with("ü", 'ü'));
    assert!(!ends_with("a/b", '/'));
    assert!(!ends_with("", '/'));
}

#[test]
fn text_is_joined_in_order() {
    assert_eq!(join("Saved ", "it"), "Saved it");
    assert_eq!(join("", ""), "");
}

#[test]
fn truth_is_a_word() {
    assert_eq!(truth_word(true), "true");
    assert_eq!(truth_word(false), "false");
}

#[test]
fn parts_of_text_are_found() {
    assert!(contains_text("abc", ""));
    assert!(contains_text("", ""));
    assert!(contains_text("abc", "abc"));
    assert!(contains_text("xabc", "abc"));
    assert!(contains_text("aab", "ab"));
    assert!(contains_text("grüße", "üß"));
    assert!(!contains_text("abc", "abcd"));
    assert!(!contains_text("abc", "ac"));
    assert!(!contains_text("", "a"));
}
