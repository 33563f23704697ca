use mcs::text::{
    chars_of, clone_opt, decimal, hex_char, join2, join3, str_eq, str_le, string_of, strip_prefix,
    take_chars, trim, trim_end_char,
};

#[test]
fn white_space_is_the_unicode_property() {
    for n in 0..=0x10_ffffu32 {
        let listed = (0x09..=0x0d).contains(&n)
            || (0x2000..=0x200a).contains(&n)
            || [0x20, 0x85, 0xa0, 0x1680, 0x2028, 0x2029, 0x202f, 0x205f, 0x3000].contains(&n);
        if let Some(c) = char::from_u32(n) {
            assert_eq!(c.is_whitespace(), listed, "U+{n:04X}");
        }
    }
}

#[test]
fn trim_drops_white_space_at_both_ends_only() {
    for s in ["", " ", "a", " a b\t", "\u{3000}x\u{a0}\n", "\u{200b}x", "\u{85}\u{2028}"] {
        assert_eq!(trim(s), s.trim());
    }
}

#[test]
fn strings_are_compared_by_code_points() {
    let words = ["", "a", "ab", "b", "B", "\u{e9}", "\u{ffff}", "\u{1F600}", "a\u{1F600}"];
    for x in words {
        for y in words {
            assert_eq!(str_le(x, y), x <= y, "{x:?} {y:?}");
            assert_eq!(str_eq(x, y), x == y);
        }
    }
}

#[test]
fn numbers_render_in_decimal() {
    for n in [0, 7, 10, 255, 65_536, u64::MAX] {
        assert_eq!(decimal(n), n.to_string());
    }
}

#[test]
fn hexadecimal_digits_are_lower_case() {
    let digits: String = (0..16).map(hex_char).collect();
    assert_eq!(digits, "0123456789abcdef");
}

#[test]
fn slicing_counts_characters() {
    let s = "h\u{e9}llo\u{1F600}";
    let chars = chars_of(s);
    assert_eq!(chars.len(), 6);
    assert_eq!(string_of(&chars, 1, 3), "\u{e9}l");
    assert_eq!(take_chars(s, 2), "h\u{e9}");
    assert_eq!(take_chars(s, 100), s);
    assert_eq!(strip_prefix(s, "h\u{e9}"), Some("llo\u{1F600}".to_owned()));
    assert_eq!(strip_prefix(s, "x"), None);
    assert_eq!(strip_prefix("a", "ab"), None);
    assert_eq!(trim_end_char("a/b//", '/'), "a/b");
    assert_eq!(trim_end_char("//", '/'), "");
}

#[test]
fn joining_keeps_the_order() {
    assert_eq!(join2("a", "b"), "ab");
    assert_eq!(join3("a", "", "c"), "ac");
    assert_eq!(clone_opt(&Some("x".to_owned())), Some("x".to_owned()));
    assert_eq!(clone_opt(&None), None);
}
