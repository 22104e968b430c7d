use metronome::layout::{beat_symbol, centered_column, is_key_hint};

#[test]
fn text_is_centred() {
    assert_eq!(centered_column(80, 4), 38);
    assert_eq!(centered_column(80, 54), 13);
    assert_eq!(centered_column(81, 9), 36);
    assert_eq!(centered_column(3, 10), 0);
    assert_eq!(centered_column(0, 0), 0);
    assert_eq!(centered_column(u16::MAX, usize::MAX), 0);
}

#[test]
fn one_symbol_per_beat() {
    assert_eq!(beat_symbol(1), "\\...");
    assert_eq!(beat_symbol(2), ".|..");
    assert_eq!(beat_symbol(3), "../.");
    assert_eq!(beat_symbol(4), "...-");
}

#[test]
fn legend_keys_stand_out() {
    assert!(is_key_hint('+'));
    assert!(is_key_hint('-'));
    assert!(is_key_hint('q'));
    assert!(!is_key_hint('b'));
    assert!(!is_key_hint('('));
}
