use noctis_dicom::text::{is_space, trim};

#[test]
fn white_space_is_the_unicode_property() {
    let mut code = 0u32;
    while code <= 0x10FFFF {
        if let Some(c) = char::from_u32(code) {
            assert_eq!(is_space(c), c.is_whitespace(), "U+{:04X}", code);
        }
        code += 1;
    }
}

#[test]
fn white_space_examples() {
    for c in [' ', '\t', '\n', '\r', '\u{0B}', '\u{0C}', '\u{85}', '\u{A0}', '\u{3000}'] {
        assert!(is_space(c));
    }
    for c in ['a', '0', '_', '\u{0}', '\u{1F}', '\u{200B}', '\u{180E}', '\u{FEFF}'] {
        assert!(!is_space(c));
    }
}

#[test]
fn trim_removes_both_ends() {
    assert_eq!(trim("  STORE_SCU  "), "STORE_SCU");
    assert_eq!(trim("STORE_SCU"), "STORE_SCU");
    assert_eq!(trim("\t\n x \r"), "x");
    assert_eq!(trim("x  "), "x");
    assert_eq!(trim("  x"), "x");
}

#[test]
fn trim_keeps_what_is_inside() {
    assert_eq!(trim("  a  b  "), "a  b");
    assert_eq!(trim("a\tb"), "a\tb");
    assert_eq!(trim(" DOE^JOHN ^ "), "DOE^JOHN ^");
}

#[test]
fn trim_of_blank_text_is_empty() {
    assert_eq!(trim(""), "");
    assert_eq!(trim(" "), "");
    assert_eq!(trim(" \t\r\n\u{3000}\u{A0}"), "");
}

#[test]
fn trim_knows_white_space_beyond_ascii() {
    assert_eq!(trim("\u{3000}\u{2003}名前\u{2028}"), "名前");
    assert_eq!(trim("\u{A0}x\u{85}"), "x");
    assert_eq!(trim("\u{200B}x\u{200B}"), "\u{200B}x\u{200B}");
}

#[test]
fn trim_agrees_with_the_standard_trim() {
    let pieces = ["", " ", "\t", "a", "é", "\u{3000}", "\u{200B}", "b c", "\n", "\u{1680}", "𝄞"];
    for first in pieces {
        for second in pieces {
            for third in pieces {
                let text = format!("{}{}{}", first, second, third);
                assert_eq!(trim(&text), text.trim(), "{:?}", text);
            }
        }
    }
}

#[test]
fn trim_twice_is_trim_once() {
    for text in ["  a b  ", "", "   ", "x", "\u{3000}y z\t"] {
        let once = trim(text);
        assert_eq!(trim(&once), once);
    }
}
