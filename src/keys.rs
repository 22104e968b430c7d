use vstd::prelude::*;

use crate::engine::Command;

verus! {

/// One keystroke as the engine reads it.
#[derive(Clone, Copy, Debug, PartialEq, Eq, Structural)]
pub enum Key {
    Char(char),
    Up,
    Down,
    Other,
}

/// The command that a poll yields: `+` or Up raise the tempo, `-` or Down
/// lower it, `q` quits, and any other key, or no key at all, does nothing.
pub open spec fn command_of(key: Option<Key>) -> Command {
    match key {
        Some(Key::Up) => Command::Increase,
        Some(Key::Down) => Command::Decrease,
        Some(Key::Char(c)) => if c == '+' {
            Command::Increase
        } else if c == '-' {
            Command::Decrease
        } else if c == 'q' {
            Command::Quit
        } else {
            Command::Idle
        },
        _ => Command::Idle,
    }
}

/// Decodes the keystroke that a poll found, if any, into a command.
pub fn decode_key(key: Option<Key>) -> (r: Command)
    ensures
        r == command_of(key),
{
    match key {
        Some(Key::Up) => Command::Increase,
        Some(Key::Down) => Command::Decrease,
        Some(Key::Char(c)) => {
            if c == '+' {
                Command::Increase
            } else if c == '-' {
                Command::Decrease
            } else if c == 'q' {
                Command::Quit
            } else {
                Command::Idle
            }
        },
        Some(Key::Other) => Command::Idle,
        None => Command::Idle,
    }
}

} // verus!
