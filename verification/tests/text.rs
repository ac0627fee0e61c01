use lecoo_control::text::{
    around, blank, characters, decimal_text, hex_text, joined, parse_hex_byte, same_text, space,
    spells, split_lines, strip, trimmed,
};

fn spelled(chars: &[char]) -> String {
    chars.iter().collect()
}

#[test]
fn decimal_has_no_leading_zeros() {
    assert_eq!(decimal_text(0), "0");
    assert_eq!(decimal_text(1070), "1070");
    assert_eq!(decimal_text(u64::MAX), "18446744073709551615");
}

#[test]
fn hexadecimal_is_padded_and_upper_case() {
    assert_eq!(hex_text(0xC4, 2), "C4");
    assert_eq!(hex_text(0x1F, 4), "001F");
    assert_eq!(hex_text(0x1_23, 2), "23");
    assert_eq!(hex_text(0xDEAD_BEEF, 16), "00000000DEADBEEF");
    assert_eq!(hex_text(7, 0), "");
}

#[test]
fn texts_are_put_together() {
    assert_eq!(joined("风扇", " 1"), "风扇 1");
    assert_eq!(around("<", "a".to_owned(), ">"), "<a>");
    assert!(same_text("--profile", "--profile"));
    assert!(!same_text("--profile", "--profiles"));
    assert_eq!(characters("é中"), vec!['é', '中']);
}

#[test]
fn white_space_is_the_unicode_property() {
    for number in 0_u32..0x1_0000 {
        if let Some(c) = char::from_u32(number) {
            assert_eq!(space(c), c.is_whitespace(), "{number:#x}");
        }
    }
}

#[test]
fn trimming_agrees_with_the_standard_library() {
    for text in ["", " ", " \t a b \r\n", "a", "\u{3000}a\u{a0}", "\u{200b}a"] {
        assert_eq!(spelled(&trimmed(&characters(text))), text.trim());
        assert_eq!(blank(text), text.trim().is_empty());
    }
}

#[test]
fn lines_agree_with_the_standard_library() {
    for text in ["", "\n", "a", "a\n", "a\nb", "a\r\nb\r", "\r\n\r\n", "a\n\nb\n"] {
        let list = split_lines(&characters(text));
        let list: Vec<String> = list.iter().map(|line| spelled(line)).collect();
        let expected: Vec<&str> = text.lines().collect();
        assert_eq!(list, expected, "{text:?}");
    }
}

#[test]
fn hexadecimal_bytes_agree_with_the_standard_library() {
    for text in ["", "+", "0", "ff", "FF", "+7f", "100", "0000ff", "-1", "g", "1 ", "++1"] {
        assert_eq!(
            parse_hex_byte(&characters(text)),
            u8::from_str_radix(text, 16).ok(),
            "{text:?}"
        );
    }
}

#[test]
fn prefixes_are_taken_off() {
    let text = characters("policy=1F");
    assert_eq!(strip(&text, "policy=").map(|rest| spelled(&rest)), Some("1F".to_owned()));
    assert_eq!(strip(&text, "policy: "), None);
    assert_eq!(strip(&text, "policy=1F0"), None);
    assert!(spells(&text, "policy=1F"));
    assert!(!spells(&text, "policy="));
}
