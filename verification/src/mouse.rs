//! What the mouse tells a widget, and what a widget tells the mouse.
use crate::units::Point;
use vstd::prelude::*;

verus! {

/// A button of a mouse.
#[derive(Clone, Copy, Debug, PartialEq, Eq, Structural)]
pub enum Button {
    Left,
    Right,
    Middle,
    /// A further button, by its number.
    Other(u8),
}

/// Something that happened to the mouse.
#[derive(Clone, Copy, Debug, PartialEq, Eq, Structural)]
pub enum Event {
    /// The cursor entered the window.
    CursorEntered,
    /// The cursor left the window.
    CursorLeft,
    /// The cursor moved to this position in the window.
    CursorMoved { position: Point },
    ButtonPressed(Button),
    ButtonReleased(Button),
    /// The wheel was turned by these amounts.
    WheelScrolled { x: i32, y: i32 },
}

/// The hint a widget gives on what the mouse would do where it stands.
#[derive(Clone, Copy, Debug, PartialEq, Eq, Structural)]
pub enum Interaction {
    /// Nothing in particular.
    Idle,
    Pointer,
    Grab,
    Text,
    Crosshair,
    Working,
    Grabbing,
    ResizingHorizontally,
    ResizingVertically,
}

impl Default for Interaction {
    /// No special interaction.
    fn default() -> (interaction: Interaction)
        ensures
            interaction == Interaction::Idle,
    {
        Interaction::Idle
    }
}

} // verus!
