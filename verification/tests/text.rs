use shelly::text::{
    chars_of, decimal_string, digit_runs_fit, eq_ignore_ascii_case, find_line_end, find_trim_end, find_word_end,
    find_word_start, is_space, parse_number, str_eq, trim,
};

#[test]
fn white_space_is_what_the_standard_says() {
    let mut c = 0u32;
    while c <= 0x10ffff {
        if let Some(ch) = char::from_u32(c) {
            assert_eq!(is_space(ch), ch.is_whitespace());
        }
        c += 1;
    }
    assert!(is_space(' '));
    assert!(is_space('\u{3000}'));
    assert!(!is_space('\u{feff}'));
    assert!(!is_space('\u{200b}'));
}

#[test]
fn trim_agrees_with_the_standard() {
    for text in ["", " ", "a", " a", "a ", " a b \t", "\u{a0}x\u{3000}", "\n\n", "é  ", "\u{200b} "] {
        assert_eq!(trim(text), text.trim());
    }
}

#[test]
fn numbers_are_written_in_decimal() {
    assert_eq!(decimal_string(0), "0");
    assert_eq!(decimal_string(7), "7");
    assert_eq!(decimal_string(10), "10");
    assert_eq!(decimal_string(14), "14");
    assert_eq!(decimal_string(65535), "65535");
    assert_eq!(decimal_string(1_000_000), "1000000");
    assert_eq!(decimal_string(usize::MAX), usize::MAX.to_string());
}

#[test]
fn numbers_are_read_as_the_standard_reads_them() {
    for text in ["0", "1", "+1", "00012", "255", "256", "", "+", "++1", "-0", "1_0", " 1", "1 ", "18446744073709551615", "18446744073709551616", "٣"] {
        assert_eq!(parse_number(text, u64::MAX), text.parse::<u64>().ok());
        assert_eq!(parse_number(text, 255), text.parse::<u8>().ok().map(u64::from));
    }
    assert_eq!(parse_number("9", 8), None);
    assert_eq!(parse_number("8", 8), Some(8));
    assert_eq!(parse_number("0", 0), Some(0));
    assert_eq!(parse_number("1", 0), None);
}

#[test]
fn words_and_lines_are_found_by_index() {
    let chars = chars_of("  GET /x\r\nHost");
    assert_eq!(chars.len(), 14);
    assert_eq!(find_word_start(&chars, 0), 2);
    assert_eq!(find_word_end(&chars, 2), 5);
    assert_eq!(find_word_start(&chars, 5), 6);
    assert_eq!(find_word_end(&chars, 6), 8);
    assert_eq!(find_line_end(&chars, 0), 9);
    assert_eq!(find_line_end(&chars, 10), 14);
    assert_eq!(find_word_start(&chars, 14), 14);
    assert_eq!(find_word_start(&chars, 99), 14);
    assert_eq!(find_word_end(&chars, 99), 14);
    assert_eq!(find_line_end(&chars, 99), 14);
    assert_eq!(find_trim_end(&chars), 14);
    assert_eq!(find_trim_end(&chars_of("ab \n ")), 2);
    assert_eq!(find_trim_end(&chars_of("   ")), 0);
    assert_eq!(chars_of("héllo"), vec!['h', 'é', 'l', 'l', 'o']);
}

#[test]
fn strings_are_compared_by_their_characters() {
    assert!(str_eq("", ""));
    assert!(str_eq("index", "index"));
    assert!(!str_eq("index", "Index"));
    assert!(!str_eq("index", "indexes"));
    assert!(!str_eq("é", "e"));
    assert!(eq_ignore_ascii_case(&chars_of("YeS"), &chars_of("yes")));
    assert!(!eq_ignore_ascii_case(&chars_of("yes"), &chars_of("ye")));
    assert!(!eq_ignore_ascii_case(&chars_of("É"), &chars_of("é")));
    assert!(!eq_ignore_ascii_case(&chars_of("@"), &chars_of("`")));
    assert!(!eq_ignore_ascii_case(&chars_of("["), &chars_of("{")));
    for (a, b) in [("Hello", "hELLO"), ("a1", "A1"), ("k", "\u{212a}"), ("z{", "Z{"), ("", "")] {
        assert_eq!(eq_ignore_ascii_case(&chars_of(a), &chars_of(b)), a.eq_ignore_ascii_case(b));
    }
}

#[test]
fn a_numeral_reads_back_as_its_number() {
    for n in [0usize, 1, 9, 10, 99, 100, 4444, 65535, 1 << 20, usize::MAX] {
        let numeral = decimal_string(n);
        assert_eq!(parse_number(&numeral, n as u64), Some(n as u64));
        assert_eq!(parse_number(&numeral, u64::MAX), Some(n as u64));
        if n > 0 {
            assert!(!numeral.starts_with('0'));
            assert_eq!(parse_number(&numeral, n as u64 - 1), None);
        }
    }
}

#[test]
fn runs_of_digits_are_measured() {
    assert!(digit_runs_fit("", 0));
    assert!(digit_runs_fit("abc", 0));
    assert!(!digit_runs_fit("a1", 0));
    assert!(digit_runs_fit("12 345 6", 3));
    assert!(!digit_runs_fit("12 3456 7", 3));
    assert!(digit_runs_fit("1.1.1.1", 1));
    assert!(!digit_runs_fit("x99", 1));
    assert!(digit_runs_fit("\u{661}\u{662}\u{663}", 0));
}
