use discord_bot_rs::reminder::text::{clock_text, is_white_space, opens_offset};

#[test]
fn clock_text_cuts_at_the_first_sign() {
    assert_eq!(clock_text("09:00:00+09:00"), "09:00:00");
    assert_eq!(clock_text("09:00:00-05:00"), "09:00:00");
    assert_eq!(clock_text("09:00:00+09:00-05:00"), "09:00:00");
    assert_eq!(clock_text("09:00:00-05:00+09:00"), "09:00:00");
    assert_eq!(clock_text("+09:00"), "");
    assert_eq!(clock_text("-"), "");
}

#[test]
fn clock_text_without_a_sign_is_the_whole_text() {
    assert_eq!(clock_text("09:00:00"), "09:00:00");
    assert_eq!(clock_text("nine o'clock"), "nine o'clock");
    assert_eq!(clock_text(""), "");
}

#[test]
fn clock_text_trims_white_space() {
    assert_eq!(clock_text("  09:00:00  "), "09:00:00");
    assert_eq!(clock_text("09:00:00 +09:00"), "09:00:00");
    assert_eq!(clock_text("\t\n09:00:00\r\n-05:00"), "09:00:00");
    assert_eq!(clock_text("\u{2003}09 00\u{a0}"), "09 00");
    assert_eq!(clock_text("   "), "");
    assert_eq!(clock_text("  +  "), "");
}

#[test]
fn clock_text_counts_characters_not_bytes() {
    assert_eq!(clock_text("九時\u{3000}+09:00"), "九時");
    assert_eq!(clock_text("\u{3000}é\u{3000}"), "é");
}

#[test]
fn clock_text_is_the_trimmed_prefix() {
    for text in ["a+b", " a b -c", "", "+", " x ", "12:00:00", "1\u{85}+2", "\u{1680}-"] {
        let expected = text.split(|c| c == '+' || c == '-').next().unwrap().trim();
        assert_eq!(clock_text(text), expected);
    }
}

#[test]
fn signs_are_plus_and_minus() {
    assert!(opens_offset('+'));
    assert!(opens_offset('-'));
    assert!(!opens_offset(':'));
    assert!(!opens_offset('0'));
    assert!(!opens_offset(' '));
    assert!(!opens_offset('\u{2212}'));
}

#[test]
fn white_space_is_what_the_standard_library_trims() {
    let mut count = 0;
    for code in 0..=0x10FFFF_u32 {
        if let Some(c) = char::from_u32(code) {
            assert_eq!(is_white_space(c), c.is_whitespace(), "U+{:04X}", code);
            if is_white_space(c) {
                count += 1;
            }
        }
    }
    assert_eq!(count, 25);
}
