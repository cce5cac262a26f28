use glassmarlin::text::{
    is_white_space_char, push_decimal, replace_all, same_text, trim_white_space,
    utf8_len_at_least,
};

#[test]
fn trim_removes_ascii_white_space() {
    assert_eq!(trim_white_space("  \t0.1.0\r\n"), "0.1.0");
    assert_eq!(trim_white_space("a b"), "a b");
    assert_eq!(trim_white_space(" \n "), "");
    assert_eq!(trim_white_space(""), "");
}

#[test]
fn trim_removes_unicode_white_space() {
    let s = "\u{3000}\u{a0}key\u{2029}\u{85}";
    assert_eq!(trim_white_space(s), "key");
    assert_eq!(trim_white_space(s), s.trim());
    assert_eq!(trim_white_space("\u{200b}x\u{200b}"), "\u{200b}x\u{200b}");
}

#[test]
fn white_space_matches_std() {
    for v in 0u32..0x3100 {
        if let Some(c) = char::from_u32(v) {
            assert_eq!(is_white_space_char(c), c.is_whitespace(), "code point {v:#x}");
        }
    }
}

#[test]
fn replace_all_doubles_quotes() {
    assert_eq!(replace_all("it's", '\'', "''"), "it''s");
    assert_eq!(replace_all("''", '\'', "x"), "xx");
    assert_eq!(replace_all("none", '\'', "''"), "none");
}

#[test]
fn decimal_rendering() {
    for n in [0u64, 7, 10, 99, 100, 8080, 65535, u64::MAX] {
        let mut s = String::from("p=");
        push_decimal(&mut s, n);
        assert_eq!(s, format!("p={n}"));
    }
}

#[test]
fn byte_length_threshold_counts_utf8() {
    assert!(utf8_len_at_least("abc", 3));
    assert!(!utf8_len_at_least("abc", 4));
    assert!(utf8_len_at_least("\u{20ac}", 3));
    assert!(!utf8_len_at_least("\u{20ac}", 4));
    assert!(utf8_len_at_least("", 0));
    assert!(utf8_len_at_least("\u{1f600}x", 5));
}

#[test]
fn text_equality() {
    assert!(same_text("0.1.0", "0.1.0"));
    assert!(!same_text("0.1.0", "0.1.1"));
}
