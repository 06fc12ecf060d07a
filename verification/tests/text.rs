use cava::text::{
    chars_eq_ignore_ascii_case, chars_eq_str, parse_u32_chars, skip_chars, split_chars,
    to_chars, trim_chars, IntErrorKind,
};

fn chars(s: &str) -> Vec<char> {
    s.chars().collect()
}

fn parse(s: &str) -> Result<u32, IntErrorKind> {
    parse_u32_chars(&chars(s))
}

#[test]
fn parse_plain_number() {
    assert_eq!(parse("42"), Ok(42));
    assert_eq!(parse("0"), Ok(0));
    assert_eq!(parse("007"), Ok(7));
}

#[test]
fn parse_plus_sign() {
    assert_eq!(parse("+7"), Ok(7));
    assert_eq!(parse("+"), Err(IntErrorKind::InvalidDigit));
    assert_eq!(parse("++7"), Err(IntErrorKind::InvalidDigit));
}

#[test]
fn parse_rejects_minus_and_empty() {
    assert_eq!(parse(""), Err(IntErrorKind::Empty));
    assert_eq!(parse("-"), Err(IntErrorKind::InvalidDigit));
    assert_eq!(parse("-1"), Err(IntErrorKind::InvalidDigit));
    assert_eq!(parse(" 1"), Err(IntErrorKind::InvalidDigit));
    assert_eq!(parse("12a"), Err(IntErrorKind::InvalidDigit));
    assert_eq!(parse("١"), Err(IntErrorKind::InvalidDigit));
}

#[test]
fn parse_u32_limits() {
    assert_eq!(parse("4294967295"), Ok(u32::MAX));
    assert_eq!(parse("4294967296"), Err(IntErrorKind::PosOverflow));
    assert_eq!(parse("99999999999a"), Err(IntErrorKind::PosOverflow));
    assert_eq!(parse("9a9999999999"), Err(IntErrorKind::InvalidDigit));
}

#[test]
fn parse_agrees_with_std() {
    for s in ["", "+", "-", "0", "+0", "12", "4294967295", "4294967296", "1x", "x1", "00000000000000012", "+-3", "1 "] {
        let expected = s.parse::<u32>().map_err(|e| match e.kind() {
            std::num::IntErrorKind::Empty => IntErrorKind::Empty,
            std::num::IntErrorKind::InvalidDigit => IntErrorKind::InvalidDigit,
            std::num::IntErrorKind::PosOverflow => IntErrorKind::PosOverflow,
            _ => panic!("unexpected error kind"),
        });
        assert_eq!(parse(s), expected, "{s:?}");
    }
}

#[test]
fn trim_removes_unicode_whitespace() {
    assert_eq!(trim_chars(&chars("  5 \t")), chars("5"));
    assert_eq!(trim_chars(&chars("\u{3000}x y\u{a0}\n")), chars("x y"));
    assert_eq!(trim_chars(&chars(" \t ")), Vec::<char>::new());
    assert_eq!(trim_chars(&chars("")), Vec::<char>::new());
}

#[test]
fn trim_agrees_with_std() {
    for s in ["", " ", " a ", "\u{2000}b\u{200a}", "\u{85}c", "d\u{202f}", "\u{200b}e", "\u{1680}f\u{205f}", "\u{2028}g\u{2029}", "\u{b}\u{c}h\r"] {
        assert_eq!(trim_chars(&chars(s)), chars(s.trim()), "{s:?}");
    }
}

#[test]
fn split_keeps_empty_pieces() {
    let parts = split_chars(&chars("1,2"), ',');
    assert_eq!(parts, vec![chars("1"), chars("2")]);
    assert_eq!(split_chars(&chars(","), ','), vec![chars(""), chars("")]);
    assert_eq!(split_chars(&chars("abc"), ','), vec![chars("abc")]);
    assert_eq!(split_chars(&chars(""), ','), vec![chars("")]);
    assert_eq!(split_chars(&chars("a,,b"), ',').len(), 3);
}

#[test]
fn split_agrees_with_std() {
    for s in ["", ",", "a,b", ",a,", "1, 2,3"] {
        let expected: Vec<Vec<char>> = s.split(',').map(chars).collect();
        assert_eq!(split_chars(&chars(s), ','), expected, "{s:?}");
    }
}

#[test]
fn char_helpers() {
    assert_eq!(to_chars("héllo"), chars("héllo"));
    assert!(chars_eq_str(&chars("title"), "title"));
    assert!(!chars_eq_str(&chars("Title"), "title"));
    assert!(!chars_eq_str(&chars("titles"), "title"));
    assert!(chars_eq_ignore_ascii_case(&chars("NoNe"), "none"));
    assert!(!chars_eq_ignore_ascii_case(&chars("nonE "), "none"));
    assert_eq!(skip_chars(&chars("--width"), 2), chars("width"));
}
