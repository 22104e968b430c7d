use metronome::prompt::{is_blank_char, parse_tempo, TempoError};

#[test]
fn reads_a_plain_tempo() {
    assert_eq!(parse_tempo("120"), Ok(120));
    assert_eq!(parse_tempo("120\n"), Ok(120));
    assert_eq!(parse_tempo("  90 \r\n"), Ok(90));
    assert_eq!(parse_tempo("+7"), Ok(7));
    assert_eq!(parse_tempo("007"), Ok(7));
    assert_eq!(parse_tempo("1"), Ok(1));
    assert_eq!(parse_tempo("4294967295"), Ok(u32::MAX));
}

#[test]
fn unicode_whitespace_is_trimmed() {
    assert_eq!(parse_tempo("\u{3000}60\u{a0}"), Ok(60));
    assert_eq!(parse_tempo("\t\u{2003}60\u{85}"), Ok(60));
    assert!(is_blank_char('\u{202f}'));
    assert!(!is_blank_char('\u{200b}'));
    assert!(!is_blank_char('x'));
}

#[test]
fn empty_line_is_rejected() {
    assert_eq!(parse_tempo(""), Err(TempoError::Empty));
    assert_eq!(parse_tempo("  \n"), Err(TempoError::Empty));
}

#[test]
fn non_digits_are_rejected() {
    assert_eq!(parse_tempo("+"), Err(TempoError::InvalidDigit));
    assert_eq!(parse_tempo("12a"), Err(TempoError::InvalidDigit));
    assert_eq!(parse_tempo("-5"), Err(TempoError::InvalidDigit));
    assert_eq!(parse_tempo("1 2"), Err(TempoError::InvalidDigit));
    assert_eq!(parse_tempo("++3"), Err(TempoError::InvalidDigit));
    assert_eq!(parse_tempo("99999999999x"), Err(TempoError::InvalidDigit));
    assert_eq!(parse_tempo("fast"), Err(TempoError::InvalidDigit));
}

#[test]
fn too_large_is_rejected() {
    assert_eq!(parse_tempo("4294967296"), Err(TempoError::Overflow));
    assert_eq!(parse_tempo("99999999999999999999999"), Err(TempoError::Overflow));
}

#[test]
fn zero_is_rejected() {
    assert_eq!(parse_tempo("0"), Err(TempoError::Zero));
    assert_eq!(parse_tempo(" 000 "), Err(TempoError::Zero));
}
