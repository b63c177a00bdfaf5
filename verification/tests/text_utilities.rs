use launcher::text::{
    chars_of, digit, join, last_token_of, parse_numeral, push_decimal, trim, whitespace, Reading,
};

fn chars(s: &str) -> Vec<char> {
    s.chars().collect()
}

fn text(v: Vec<char>) -> String {
    v.into_iter().collect()
}

#[test]
fn whitespace_is_the_unicode_property() {
    for n in 0u32..=0x10FFFF {
        if let Some(c) = char::from_u32(n) {
            assert_eq!(whitespace(c), c.is_whitespace(), "U+{:04X}", n);
        }
    }
}

#[test]
fn digits_are_the_ascii_digits() {
    for n in 0u32..=0x10FFFF {
        if let Some(c) = char::from_u32(n) {
            assert_eq!(digit(c), c.to_digit(10).filter(|_| c.is_ascii_digit()), "U+{:04X}", n);
        }
    }
    assert_eq!(digit('0'), Some(0));
    assert_eq!(digit('7'), Some(7));
    assert_eq!(digit('9'), Some(9));
    assert_eq!(digit('a'), None);
    assert_eq!(digit('/'), None);
    assert_eq!(digit(':'), None);
}

#[test]
fn chars_of_lists_every_character() {
    assert_eq!(chars_of(""), Vec::<char>::new());
    assert_eq!(chars_of("a\u{e9}\u{1F600}z"), vec!['a', '\u{e9}', '\u{1F600}', 'z']);
}

#[test]
fn last_token_matches_split_whitespace() {
    let samples = [
        "",
        " ",
        "a",
        " a",
        "a ",
        "ab cd",
        "ab cd ",
        "  ab\tcd\n\n",
        "Python 3.13.0\r\n",
        "one\u{a0}two\u{2003}three\u{3000}",
        "x\u{200b}y z\u{feff}",
        "\u{85}\u{1680}q",
    ];
    for s in samples.iter() {
        let expected = s.split_whitespace().last().unwrap_or("");
        assert_eq!(text(last_token_of(&chars(s))), expected, "{:?}", s);
    }
}

#[test]
fn trim_matches_std() {
    let samples = [
        "",
        " ",
        " \t\n",
        "a",
        " a",
        "a ",
        "  1.2.3\n",
        "\u{a0}v 1 \u{3000}\u{2028}",
        "in ner",
        "\u{200b} x \u{200b}",
    ];
    for s in samples.iter() {
        assert_eq!(trim(s), s.trim(), "{:?}", s);
    }
}

#[test]
fn numerals_are_read_with_their_size() {
    let cases: [(&str, Reading); 17] = [
        ("", Reading::NotNumeric),
        ("0", Reading::Number(0)),
        ("00", Reading::Number(0)),
        ("7", Reading::Number(7)),
        ("13", Reading::Number(13)),
        ("0013", Reading::Number(13)),
        ("4294967295", Reading::Number(4294967295)),
        ("4294967296", Reading::Number(4294967296)),
        ("18446744073709551615", Reading::Number(u64::MAX)),
        ("18446744073709551616", Reading::TooLarge),
        ("184467440737095516150", Reading::TooLarge),
        ("99999999999999999999999999", Reading::TooLarge),
        ("1a", Reading::NotNumeric),
        ("a1", Reading::NotNumeric),
        ("+1", Reading::NotNumeric),
        ("-1", Reading::NotNumeric),
        ("99999999999999999999999999x", Reading::NotNumeric),
    ];
    for (s, expected) in cases.iter() {
        let v = chars(s);
        assert_eq!(parse_numeral(&v, 0, v.len()), *expected, "{:?}", s);
    }
}

#[test]
fn numerals_are_read_inside_a_range() {
    let v = chars("ab123cd");
    assert_eq!(parse_numeral(&v, 2, 5), Reading::Number(123));
    assert_eq!(parse_numeral(&v, 2, 4), Reading::Number(12));
    assert_eq!(parse_numeral(&v, 3, 3), Reading::NotNumeric);
    assert_eq!(parse_numeral(&v, 1, 5), Reading::NotNumeric);
    assert_eq!(parse_numeral(&v, 2, 6), Reading::NotNumeric);
}

#[test]
fn decimal_is_appended() {
    for n in [0u64, 5, 9, 10, 19, 100, 1203, 4294967295, 4294967296, u64::MAX] {
        let mut out = String::from("n=");
        push_decimal(&mut out, n);
        assert_eq!(out, format!("n={}", n));
    }
}

#[test]
fn join_puts_strings_one_after_another() {
    assert_eq!(join(&Vec::new()), "");
    assert_eq!(join(&vec!["a".to_string()]), "a");
    assert_eq!(
        join(&vec!["ab".to_string(), String::new(), "c\n".to_string(), "\u{e9}".to_string()]),
        "abc\n\u{e9}"
    );
}
