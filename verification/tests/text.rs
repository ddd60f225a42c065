use skylight::input::keyboard::text::{
    decode_pair, decode_unit, is_control, is_high_surrogate, is_ignored, is_low_surrogate,
    is_whitespace, BACKSPACE, REPLACEMENT_CHARACTER,
};

#[test]
fn constants() {
    assert_eq!(BACKSPACE, '\x08');
    assert_eq!(BACKSPACE as u32, 8);
    assert_eq!(REPLACEMENT_CHARACTER, '\u{FFFD}');
    assert_eq!(REPLACEMENT_CHARACTER, char::REPLACEMENT_CHARACTER);
}

#[test]
fn surrogate_ranges() {
    assert!(!is_high_surrogate(0xD7FF));
    assert!(is_high_surrogate(0xD800));
    assert!(is_high_surrogate(0xDBFF));
    assert!(!is_high_surrogate(0xDC00));
    assert!(!is_low_surrogate(0xDBFF));
    assert!(is_low_surrogate(0xDC00));
    assert!(is_low_surrogate(0xDFFF));
    assert!(!is_low_surrogate(0xE000));
    for unit in 0..=u16::MAX {
        assert_eq!(is_high_surrogate(unit), (0xD800..=0xDBFF).contains(&unit));
        assert_eq!(is_low_surrogate(unit), (0xDC00..=0xDFFF).contains(&unit));
    }
}

/// A code unit decodes by itself exactly where the standard decoder accepts
/// it, and to the same character.
#[test]
fn decode_unit_agrees_with_std() {
    for unit in 0..=u16::MAX {
        let expected = char::decode_utf16([unit]).next().unwrap().ok();
        assert_eq!(decode_unit(unit), expected, "unit {unit:#06X}");
    }
}

#[test]
fn decode_unit_values() {
    assert_eq!(decode_unit(0x0000), Some('\0'));
    assert_eq!(decode_unit(0x0041), Some('A'));
    assert_eq!(decode_unit(0x00F6), Some('ö'));
    assert_eq!(decode_unit(0xD7FF), Some('\u{D7FF}'));
    assert_eq!(decode_unit(0xD800), None);
    assert_eq!(decode_unit(0xDBFF), None);
    assert_eq!(decode_unit(0xDC00), None);
    assert_eq!(decode_unit(0xDFFF), None);
    assert_eq!(decode_unit(0xE000), Some('\u{E000}'));
    assert_eq!(decode_unit(0xFFFF), Some('\u{FFFF}'));
}

#[test]
fn decode_pair_values() {
    assert_eq!(decode_pair(0xD834, 0xDD1E), Some('\u{1D11E}'));
    assert_eq!(decode_pair(0xD83D, 0xDC4C), Some('\u{1F44C}'));
    assert_eq!(decode_pair(0xD83C, 0xDF09), Some('\u{1F309}'));
    assert_eq!(decode_pair(0xD800, 0xDC00), Some('\u{10000}'));
    assert_eq!(decode_pair(0xDBFF, 0xDFFF), Some('\u{10FFFF}'));
    assert_eq!(decode_pair(0xD800, 0xDFFF), Some('\u{103FF}'));
    assert_eq!(decode_pair(0xD801, 0xDC00), Some('\u{10400}'));
    // The halves the wrong way round, or either half missing.
    assert_eq!(decode_pair(0xDD1E, 0xD834), None);
    assert_eq!(decode_pair(0xD834, 0xD834), None);
    assert_eq!(decode_pair(0xDD1E, 0xDD1E), None);
    assert_eq!(decode_pair(0xD834, 0x0061), None);
    assert_eq!(decode_pair(0x0061, 0xDD1E), None);
    assert_eq!(decode_pair(0x0061, 0x0062), None);
}

/// Every surrogate pair decodes as the standard decoder has it.
#[test]
fn decode_pair_agrees_with_std_on_pairs() {
    for high in 0xD800..=0xDBFFu16 {
        for low in 0xDC00..=0xDFFFu16 {
            let mut decoded = char::decode_utf16([high, low]);
            let expected = decoded.next().unwrap().ok();
            assert!(expected.is_some());
            assert!(decoded.next().is_none());
            assert_eq!(decode_pair(high, low), expected);
        }
    }
}

/// Two code units that are no surrogate pair do not decode as one.
#[test]
fn decode_pair_rejects_what_is_no_pair() {
    let samples = [
        0x0000u16, 0x0008, 0x0041, 0x00F6, 0xD7FF, 0xD800, 0xD834, 0xDBFF, 0xDC00, 0xDD1E,
        0xDFFF, 0xE000, 0xFFFD, 0xFFFF,
    ];
    for first in samples {
        for second in 0..=u16::MAX {
            let pair = (0xD800..=0xDBFF).contains(&first) && (0xDC00..=0xDFFF).contains(&second);
            assert_eq!(decode_pair(first, second).is_some(), pair);
            assert_eq!(decode_pair(second, first).is_some(),
                (0xD800..=0xDBFF).contains(&second) && (0xDC00..=0xDFFF).contains(&first));
        }
    }
}

/// The two character classes are those of the standard library, for every
/// character there is.
#[test]
fn classes_agree_with_std() {
    for n in 0..=0x10FFFFu32 {
        if let Some(c) = char::from_u32(n) {
            assert_eq!(is_control(c), c.is_control(), "U+{n:04X}");
            assert_eq!(is_whitespace(c), c.is_whitespace(), "U+{n:04X}");
            assert_eq!(is_ignored(c), c.is_control() && !c.is_whitespace(), "U+{n:04X}");
        }
    }
}

#[test]
fn class_values() {
    for c in ['\0', '\x07', '\x08', '\x0E', '\x1B', '\x1F', '\x7F', '\u{80}', '\u{84}', '\u{86}', '\u{9F}'] {
        assert!(is_control(c));
        assert!(!is_whitespace(c));
        assert!(is_ignored(c));
    }
    for c in ['\t', '\n', '\x0B', '\x0C', '\r', '\u{85}'] {
        assert!(is_control(c));
        assert!(is_whitespace(c));
        assert!(!is_ignored(c));
    }
    for c in [' ', '\u{A0}', '\u{1680}', '\u{2000}', '\u{200A}', '\u{2028}', '\u{2029}', '\u{202F}', '\u{205F}', '\u{3000}'] {
        assert!(!is_control(c));
        assert!(is_whitespace(c));
        assert!(!is_ignored(c));
    }
    for c in ['!', 'a', '~', '\u{A1}', '\u{180E}', '\u{200B}', '\u{FEFF}', '\u{FFFD}', '\u{1D11E}', '\u{10FFFF}'] {
        assert!(!is_control(c));
        assert!(!is_whitespace(c));
        assert!(!is_ignored(c));
    }
}
