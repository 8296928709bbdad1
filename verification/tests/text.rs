use yts_movies::text::{chars_of, decimal_string, is_white_space_char, parse_u32, trim};

#[test]
fn parse_u32_reads_plain_digits() {
    assert_eq!(parse_u32("0"), Some(0));
    assert_eq!(parse_u32("1972"), Some(1972));
    assert_eq!(parse_u32("007"), Some(7));
    assert_eq!(parse_u32("4294967295"), Some(u32::MAX));
}

#[test]
fn parse_u32_takes_a_leading_plus() {
    assert_eq!(parse_u32("+5"), Some(5));
    assert_eq!(parse_u32("+"), None);
    assert_eq!(parse_u32("++5"), None);
    assert_eq!(parse_u32("5+"), None);
}

#[test]
fn parse_u32_refuses_what_is_no_number() {
    assert_eq!(parse_u32(""), None);
    assert_eq!(parse_u32("-1"), None);
    assert_eq!(parse_u32("-0"), None);
    assert_eq!(parse_u32(" 1"), None);
    assert_eq!(parse_u32("1 "), None);
    assert_eq!(parse_u32("1,234"), None);
    assert_eq!(parse_u32("12a"), None);
    assert_eq!(parse_u32("1.0"), None);
    assert_eq!(parse_u32("\u{0661}"), None);
}

#[test]
fn parse_u32_refuses_what_does_not_fit() {
    assert_eq!(parse_u32("4294967296"), None);
    assert_eq!(parse_u32("99999999999999999999999999"), None);
    assert_eq!(parse_u32("00000000000000000000000001"), Some(1));
}

#[test]
fn parse_u32_agrees_with_std() {
    let samples = [
        "", "0", "+0", "-0", "12", "+12", "-12", "4294967295", "4294967296", "42949672950",
        "0x10", "1e3", "１２", " 7", "7 ", "+", "-", "+-1", "000", "2147483648",
    ];
    for sample in samples {
        assert_eq!(parse_u32(sample), sample.parse::<u32>().ok(), "{:?}", sample);
    }
}

#[test]
fn decimal_string_writes_digits() {
    assert_eq!(decimal_string(0), "0");
    assert_eq!(decimal_string(9), "9");
    assert_eq!(decimal_string(10), "10");
    assert_eq!(decimal_string(1974), "1974");
    assert_eq!(decimal_string(100_000), "100000");
    assert_eq!(decimal_string(u32::MAX), "4294967295");
}

#[test]
fn decimal_string_and_parse_u32_are_inverse() {
    for value in [0u32, 1, 9, 10, 19, 20, 99, 100, 1972, 65_535, 65_536, u32::MAX - 1, u32::MAX] {
        assert_eq!(decimal_string(value), value.to_string());
        assert_eq!(parse_u32(&decimal_string(value)), Some(value));
    }
}

#[test]
fn trim_removes_white_space_at_both_ends_only() {
    assert_eq!(trim("  the godfather \n"), "the godfather");
    assert_eq!(trim("the godfather"), "the godfather");
    assert_eq!(trim("\t x"), "x");
    assert_eq!(trim("x \r\n"), "x");
    assert_eq!(trim(""), "");
    assert_eq!(trim(" \n\t "), "");
}

#[test]
fn trim_agrees_with_std() {
    let samples = [
        "", " ", "a", " a", "a ", " a b ", "\u{a0}a\u{a0}", "\u{3000}全角\u{3000}",
        "\u{2028}x\u{2029}", "\u{200b}x\u{200b}", "é ", " ü", "\n\n", "a\tb",
    ];
    for sample in samples {
        assert_eq!(trim(sample), sample.trim(), "{:?}", sample);
    }
}

#[test]
fn chars_of_keeps_every_character_in_order() {
    assert_eq!(chars_of(""), Vec::<char>::new());
    assert_eq!(chars_of("8.5"), vec!['8', '.', '5']);
    assert_eq!(chars_of("é√"), vec!['é', '√']);
}

#[test]
fn white_space_is_what_std_takes_for_it() {
    for code in 0..=0x10FFFFu32 {
        if let Some(character) = char::from_u32(code) {
            assert_eq!(is_white_space_char(character), character.is_whitespace(), "{:#x}", code);
        }
    }
}

#[test]
fn white_space_characters() {
    for character in [' ', '\t', '\n', '\r', '\u{b}', '\u{c}', '\u{85}', '\u{a0}', '\u{3000}'] {
        assert!(is_white_space_char(character), "{:?}", character);
    }
    for character in ['a', '0', '.', '\0', '\u{8}', '\u{e}', '\u{200b}', '\u{180e}', '\u{feff}'] {
        assert!(!is_white_space_char(character), "{:?}", character);
    }
}
