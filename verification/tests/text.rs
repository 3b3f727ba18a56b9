use cship::text::{blank, characters, decimal_text, find, parse_count, trim, white_space};

#[test]
fn trim_takes_unicode_white_space_off_both_ends() {
    assert_eq!(trim("\u{3000}\t a \u{2028}b\r\n"), "a \u{2028}b");
    assert_eq!(trim(""), "");
    assert_eq!(trim("\u{200b}"), "\u{200b}");
}

#[test]
fn white_space_agrees_with_std() {
    for code in 0..0x11_0000u32 {
        if let Some(c) = char::from_u32(code) {
            assert_eq!(white_space(c), c.is_whitespace());
        }
    }
}

#[test]
fn parse_count_agrees_with_std() {
    let texts = [
        "", "0", "00", "42", "+42", "++42", "+", "-", "-0", "-1", " 1", "1 ", "1_0", "18446744073709551615",
        "18446744073709551616", "99999999999999999999999", "+018446744073709551615", "\u{0663}",
        "18446744073709551616x",
    ];
    for text in texts {
        assert_eq!(parse_count(&characters(text)), text.parse::<u64>().ok());
    }
}

#[test]
fn decimal_text_agrees_with_std() {
    for n in [0, 1, 9, 10, 42, 99, 100, 101, 1_000_000, u32::MAX] {
        assert_eq!(decimal_text(n), n.to_string());
        assert_eq!(parse_count(&characters(&decimal_text(n))), Some(n as u64));
    }
}

#[test]
fn find_gives_first_position_or_length() {
    assert_eq!(find(&characters("a\tb\tc"), '\t'), 1);
    assert_eq!(find(&characters("abc"), '\t'), 3);
    assert_eq!(find(&characters(""), '\t'), 0);
}

#[test]
fn blank_is_white_space_alone() {
    assert!(blank(&characters("")));
    assert!(blank(&characters(" \t\u{85}")));
    assert!(!blank(&characters(" . ")));
}
