use metronome::engine::Command;
use metronome::keys::{decode_key, Key};

#[test]
fn keys_map_to_commands() {
    assert_eq!(decode_key(Some(Key::Char('+'))), Command::Increase);
    assert_eq!(decode_key(Some(Key::Up)), Command::Increase);
    assert_eq!(decode_key(Some(Key::Char('-'))), Command::Decrease);
    assert_eq!(decode_key(Some(Key::Down)), Command::Decrease);
    assert_eq!(decode_key(Some(Key::Char('q'))), Command::Quit);
}

#[test]
fn other_keys_and_no_key_do_nothing() {
    assert_eq!(decode_key(None), Command::Idle);
    assert_eq!(decode_key(Some(Key::Other)), Command::Idle);
    assert_eq!(decode_key(Some(Key::Char('Q'))), Command::Idle);
    assert_eq!(decode_key(Some(Key::Char('='))), Command::Idle);
    assert_eq!(decode_key(Some(Key::Char(' '))), Command::Idle);
}
