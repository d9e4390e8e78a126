use fortis::keys::is_control_char;
use fortis::text::{
    insert_char_at, is_blank_char, push_decimal, push_signed_decimal, push_two_digits,
    remove_char_at, str_eq, trim,
};

#[test]
fn blank_characters_are_those_of_the_standard_library() {
    for code in 0..=0x10FFFFu32 {
        if let Some(c) = char::from_u32(code) {
            assert_eq!(is_blank_char(c), c.is_whitespace(), "U+{code:04X}");
        }
    }
}

#[test]
fn control_characters_are_those_of_the_standard_library() {
    for code in 0..=0x10FFFFu32 {
        if let Some(c) = char::from_u32(code) {
            assert_eq!(is_control_char(c), c.is_control(), "U+{code:04X}");
        }
    }
}

#[test]
fn trim_removes_white_space_at_both_ends_only() {
    assert_eq!(trim(""), "");
    assert_eq!(trim("   "), "");
    assert_eq!(trim("a"), "a");
    assert_eq!(trim("  a b  "), "a b");
    assert_eq!(trim("\t\n a\u{a0}b \u{3000}\u{2028}"), "a\u{a0}b");
    assert_eq!(trim("\u{200b}x"), "\u{200b}x");
    for text in ["  x", "x  ", " é ", "\r\nline\r\n", "no-space", " \u{1680}\u{2000} mid \u{205f}"] {
        assert_eq!(trim(text), text.trim());
    }
}

#[test]
fn strings_compare_by_their_characters() {
    assert!(str_eq("", ""));
    assert!(str_eq("héllo", "héllo"));
    assert!(!str_eq("hello", "hellp"));
    assert!(!str_eq("hello", "hell"));
    assert!(!str_eq("a", "A"));
    assert!(!str_eq("é", "e\u{301}"));
}

#[test]
fn characters_are_inserted_and_removed_by_position() {
    assert_eq!(insert_char_at("", 0, 'x'), "x");
    assert_eq!(insert_char_at("héllo", 0, '¡'), "¡héllo");
    assert_eq!(insert_char_at("héllo", 2, 'x'), "héxllo");
    assert_eq!(insert_char_at("héllo", 5, '!'), "héllo!");
    assert_eq!(remove_char_at("héllo", 0), "éllo");
    assert_eq!(remove_char_at("héllo", 1), "hllo");
    assert_eq!(remove_char_at("héllo", 4), "héll");
    assert_eq!(remove_char_at("你", 0), "");
}

#[test]
fn numbers_are_written_in_decimal() {
    for n in [0u64, 1, 9, 10, 11, 99, 100, 101, 12345, u64::MAX] {
        let mut text = String::from("n=");
        push_decimal(&mut text, n);
        assert_eq!(text, format!("n={n}"));
        let mut text = String::new();
        push_two_digits(&mut text, n);
        assert_eq!(text, format!("{n:02}"));
    }
    for n in [0i64, 1, -1, 10, -10, 12345, -12345, i64::MAX, i64::MIN] {
        let mut text = String::from("<");
        push_signed_decimal(&mut text, n);
        assert_eq!(text, format!("<{n}"));
    }
}
