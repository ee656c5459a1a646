//! What the window tells a widget.
use vstd::prelude::*;

verus! {

/// Something that happened to the window.
#[derive(Clone, Copy, Debug, PartialEq, Eq, Structural)]
pub enum Event {
    /// The window now has this size.
    Resized { width: u32, height: u32 },
    Focused,
    Unfocused,
}

} // verus!
