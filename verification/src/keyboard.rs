//! What the keyboard tells a widget.
use vstd::prelude::*;

verus! {

/// Something that happened on the keyboard.
#[derive(Clone, Copy, Debug, PartialEq, Eq, Structural)]
pub enum Event {
    /// The key with this code went down.
    KeyPressed { key_code: u32 },
    /// The key with this code came up.
    KeyReleased { key_code: u32 },
    /// A character was typed.
    CharacterReceived(char),
}

} // verus!
