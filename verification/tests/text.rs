use cat_show_downloader::text::{
    check_white_space, decimal_text, eq_ignore_ascii_case, from_chars, same_text, text_before_first,
    to_ascii_lowercase, to_chars, trim_end_text, trim_text,
};

#[test]
fn white_space_is_that_of_unicode() {
    for c in '\0'..=char::MAX {
        assert_eq!(check_white_space(c), c.is_whitespace(), "{:?}", c);
    }
}

#[test]
fn trimming_cuts_both_ends() {
    for s in ["", " ", "a", " a", "a ", "\t a b \u{a0}\n", "\u{3000}x\u{2003}", "\u{200b}x"] {
        assert_eq!(trim_text(s), s.trim());
        assert_eq!(trim_end_text(s), s.trim_end());
        assert_eq!(trim_text(&trim_text(s)), trim_text(s));
    }
    assert_eq!(trim_text("  Episode One\n"), "Episode One");
    assert_eq!(trim_end_text("  line\r\n"), "  line");
}

#[test]
fn letter_case_of_ascii_only() {
    for s in ["", "JPG", "Png", "\u{c0}B", "@[`{AZaz"] {
        assert_eq!(to_ascii_lowercase(s), s.to_ascii_lowercase());
    }
    assert_eq!(to_ascii_lowercase("JPEG"), "jpeg");
    assert!(eq_ignore_ascii_case("MaStEr", "master"));
    assert!(!eq_ignore_ascii_case("masters", "master"));
    assert!(!eq_ignore_ascii_case("\u{c0}", "\u{e0}"));
}

#[test]
fn texts_are_compared_by_character() {
    assert!(same_text("", ""));
    assert!(same_text("KEYVIDEO", "KEYVIDEO"));
    assert!(!same_text("KEYVIDEO", "keyvideo"));
    assert!(!same_text("a", "ab"));
}

#[test]
fn numbers_in_decimal() {
    for n in [0, 1, 9, 10, 42, 101, 999, 1000, -1, -10, i32::MAX, i32::MIN] {
        assert_eq!(decimal_text(n), n.to_string());
    }
    assert_eq!(decimal_text(-2147483648), "-2147483648");
}

#[test]
fn different_numbers_have_different_notations() {
    assert_ne!(decimal_text(1), decimal_text(-1));
    assert_ne!(decimal_text(1), decimal_text(10));
}

#[test]
fn text_up_to_a_character() {
    assert_eq!(text_before_first("a.jpg?x=1?y", '?'), "a.jpg");
    assert_eq!(text_before_first("a.jpg", '?'), "a.jpg");
    assert_eq!(text_before_first("?a", '?'), "");
}

#[test]
fn characters_and_back() {
    let chars = to_chars("h\u{e9}llo");
    assert_eq!(chars.len(), 5);
    assert_eq!(from_chars(&chars, 1, 4), "\u{e9}ll");
    assert_eq!(from_chars(&chars, 2, 2), "");
}
