use eink_power_cli::chars::{
    find, format_unsigned, includes, is_space_char, matches_at, parse_signed, parse_unsigned, same_text,
    slice_of, to_chars, to_text, trim, trim_bounds,
};

fn cs(s: &str) -> Vec<char> {
    s.chars().collect()
}

#[test]
fn white_space_is_the_unicode_set() {
    for c in ['\t', '\n', '\u{b}', '\u{c}', '\r', ' ', '\u{85}', '\u{a0}', '\u{1680}', '\u{2000}',
        '\u{200a}', '\u{2028}', '\u{2029}', '\u{202f}', '\u{205f}', '\u{3000}']
    {
        assert!(is_space_char(c));
        assert!(c.is_whitespace());
    }
    for c in ['a', '0', '\u{8}', '\u{e}', '\u{200b}', '\u{feff}', '\u{1f}'] {
        assert!(!is_space_char(c));
        assert!(!c.is_whitespace());
    }
}

#[test]
fn white_space_agrees_with_std_on_every_char() {
    let mut n: u32 = 0;
    while n <= 0x10ffff {
        if let Some(c) = char::from_u32(n) {
            assert_eq!(is_space_char(c), c.is_whitespace());
        }
        n += 1;
    }
}

#[test]
fn find_gives_the_leftmost_occurrence() {
    assert_eq!(find(&cs("abcabc"), &cs("bc")), Some(1));
    assert_eq!(find(&cs("abcabc"), &cs("cab")), Some(2));
    assert_eq!(find(&cs("abcabc"), &cs("abcabc")), Some(0));
    assert_eq!(find(&cs("abcabc"), &cs("")), Some(0));
    assert_eq!(find(&cs(""), &cs("")), Some(0));
    assert_eq!(find(&cs("abc"), &cs("abcd")), None);
    assert_eq!(find(&cs("abc"), &cs("d")), None);
    assert_eq!(find(&cs("abc"), &cs("c")), Some(2));
    assert!(includes(&cs("Error: x"), &cs("Error:")));
    assert!(!includes(&cs("error: x"), &cs("Error:")));
    assert!(matches_at(&cs("abc"), &cs("bc"), 1));
    assert!(!matches_at(&cs("abc"), &cs("bc"), 2));
    assert!(matches_at(&cs("abc"), &cs(""), 3));
    assert!(!matches_at(&cs("abc"), &cs(""), 4));
}

#[test]
fn trim_removes_surrounding_white_space_only() {
    assert_eq!(trim(&cs("  a b \n")), cs("a b"));
    assert_eq!(trim(&cs("   ")), cs(""));
    assert_eq!(trim(&cs("")), cs(""));
    assert_eq!(trim(&cs("x")), cs("x"));
    assert_eq!(trim_bounds(&cs("  a b \n")), (2, 5));
    assert_eq!(trim_bounds(&cs("   ")), (3, 3));
    assert_eq!(slice_of(&cs("hello"), 1, 3), cs("el"));
    for s in ["  a b \n", "\u{a0}x\u{2003}", "", " ", "a", "\r\nq\r\n"] {
        let got: String = trim(&cs(s)).into_iter().collect();
        assert_eq!(got, s.trim());
    }
}

#[test]
fn text_and_chars_convert_both_ways() {
    assert_eq!(to_chars("héllo"), vec!['h', 'é', 'l', 'l', 'o']);
    assert_eq!(to_chars(""), Vec::<char>::new());
    assert_eq!(to_text(&['o', 'k']), "ok");
    assert_eq!(to_text(&to_chars("Voltage: 3850 mV")), "Voltage: 3850 mV");
    assert!(same_text("get", "get"));
    assert!(!same_text("get", "set"));
    assert!(!same_text("get", "gets"));
    assert!(same_text("", ""));
}

#[test]
fn unsigned_numbers_are_digits_within_the_limit() {
    assert_eq!(parse_unsigned(&cs("3850"), 65535), Some(3850));
    assert_eq!(parse_unsigned(&cs("65535"), 65535), Some(65535));
    assert_eq!(parse_unsigned(&cs("65536"), 65535), None);
    assert_eq!(parse_unsigned(&cs("0"), 65535), Some(0));
    assert_eq!(parse_unsigned(&cs("007"), 65535), Some(7));
    assert_eq!(parse_unsigned(&cs(""), 65535), None);
    assert_eq!(parse_unsigned(&cs("12a"), 65535), None);
    assert_eq!(parse_unsigned(&cs("+12"), 65535), None);
    assert_eq!(parse_unsigned(&cs("-12"), 65535), None);
    assert_eq!(parse_unsigned(&cs("\u{663}"), 65535), None);
    assert_eq!(parse_unsigned(&cs("18446744073709551615"), u64::MAX), Some(u64::MAX));
    assert_eq!(parse_unsigned(&cs("18446744073709551616"), u64::MAX), None);
    assert_eq!(parse_unsigned(&cs("99999999999999999999999"), u64::MAX), None);
}

#[test]
fn signed_numbers_take_a_leading_minus() {
    assert_eq!(parse_signed(&cs("-125"), 32768, 32767), Some(-125));
    assert_eq!(parse_signed(&cs("125"), 32768, 32767), Some(125));
    assert_eq!(parse_signed(&cs("-32768"), 32768, 32767), Some(-32768));
    assert_eq!(parse_signed(&cs("-32769"), 32768, 32767), None);
    assert_eq!(parse_signed(&cs("32767"), 32768, 32767), Some(32767));
    assert_eq!(parse_signed(&cs("32768"), 32768, 32767), None);
    assert_eq!(parse_signed(&cs("-"), 32768, 32767), None);
    assert_eq!(parse_signed(&cs(""), 32768, 32767), None);
    assert_eq!(parse_signed(&cs("--1"), 32768, 32767), None);
    assert_eq!(parse_signed(&cs("-0"), 32768, 32767), Some(0));
}

#[test]
fn numbers_are_written_without_leading_zeros() {
    assert_eq!(format_unsigned(0), cs("0"));
    assert_eq!(format_unsigned(7), cs("7"));
    assert_eq!(format_unsigned(10), cs("10"));
    assert_eq!(format_unsigned(115200), cs("115200"));
    assert_eq!(format_unsigned(u64::MAX), cs("18446744073709551615"));
}

#[test]
fn writing_and_reading_a_number_round_trips() {
    for n in [0u64, 1, 9, 10, 99, 100, 255, 65535, 4294967295, u64::MAX] {
        assert_eq!(parse_unsigned(&format_unsigned(n), u64::MAX), Some(n));
        let expected: Vec<char> = n.to_string().chars().collect();
        assert_eq!(format_unsigned(n), expected);
    }
}
