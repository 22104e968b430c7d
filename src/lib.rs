//! A terminal metronome's logic: the beat engine with its tempo and bar
//! position, the keystroke commands that drive it, the tempo typed at the
//! startup prompt, the two click sounds and the screen layout.

use vstd::prelude::*;

pub mod engine;
pub mod keys;
pub mod layout;
pub mod prompt;
pub mod sounds;

verus! {

} // verus!
