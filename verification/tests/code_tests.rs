use tutorlol::code::{format_code, parse_code, CODE_DIGITS, CODE_LIMIT};

#[test]
fn code_limits() {
    assert_eq!(CODE_DIGITS, 6);
    assert_eq!(CODE_LIMIT, 1_000_000);
}

#[test]
fn codes_are_shown_with_leading_zeros() {
    assert_eq!(format_code(0), Some("000000".to_string()));
    assert_eq!(format_code(7), Some("000007".to_string()));
    assert_eq!(format_code(3115), Some("003115".to_string()));
    assert_eq!(format_code(123456), Some("123456".to_string()));
    assert_eq!(format_code(908070), Some("908070".to_string()));
    assert_eq!(format_code(999_999), Some("999999".to_string()));
}

#[test]
fn numbers_of_a_million_or_more_are_no_codes() {
    assert_eq!(format_code(1_000_000), None);
    assert_eq!(format_code(1_000_001), None);
    assert_eq!(format_code(usize::MAX), None);
}

#[test]
fn six_digits_are_read_as_a_code() {
    assert_eq!(parse_code("000000"), Some(0));
    assert_eq!(parse_code("000007"), Some(7));
    assert_eq!(parse_code("123456"), Some(123456));
    assert_eq!(parse_code("999999"), Some(999_999));
    assert_eq!(parse_code("098765"), Some(98765));
}

#[test]
fn other_texts_are_no_codes() {
    assert_eq!(parse_code(""), None);
    assert_eq!(parse_code("12345"), None);
    assert_eq!(parse_code("1234567"), None);
    assert_eq!(parse_code("12345a"), None);
    assert_eq!(parse_code("a23456"), None);
    assert_eq!(parse_code("12 456"), None);
    assert_eq!(parse_code("+12345"), None);
    assert_eq!(parse_code("-12345"), None);
    assert_eq!(parse_code("12345\u{661}"), None);
    assert_eq!(parse_code("\u{ff11}23456"), None);
}

#[test]
fn writing_and_reading_a_code_round_trips() {
    for code in [0usize, 1, 9, 10, 99, 100, 4242, 99_999, 100_000, 500_005, 999_999] {
        let shown = format_code(code).unwrap();
        assert_eq!(shown.chars().count(), 6);
        assert_eq!(parse_code(&shown), Some(code));
    }
}

#[test]
fn reading_and_writing_a_text_round_trips() {
    for text in ["000000", "000001", "010101", "654321", "999999"] {
        let code = parse_code(text).unwrap();
        assert_eq!(format_code(code), Some(text.to_string()));
    }
}
