use jit_shipper::text::{is_whitespace, to_ascii_lowercase, trimmed};

#[test]
fn trim_removes_unicode_whitespace() {
    assert_eq!(trimmed("\u{a0}\t name \u{3000}"), "name");
    assert_eq!(trimmed("a b"), "a b");
    assert_eq!(trimmed(" \n\r "), "");
    assert_eq!(trimmed(""), "");
}

#[test]
fn whitespace_matches_std() {
    for c in ['\t', '\n', '\u{b}', '\u{c}', '\r', ' ', '\u{85}', '\u{a0}', '\u{1680}', '\u{2000}', '\u{200a}', '\u{2028}', '\u{2029}', '\u{202f}', '\u{205f}', '\u{3000}', 'a', '0', '\u{200b}', '\u{feff}', '\u{180e}', '\u{8}'] {
        assert_eq!(is_whitespace(c), c.is_whitespace());
    }
    for n in 0u32..0x3100 {
        if let Some(c) = char::from_u32(n) {
            assert_eq!(is_whitespace(c), c.is_whitespace());
        }
    }
}

#[test]
fn lowercase_only_ascii_letters() {
    assert_eq!(to_ascii_lowercase("UbUnTu Ä 9"), "ubuntu Ä 9");
    assert_eq!(to_ascii_lowercase(""), "");
}
