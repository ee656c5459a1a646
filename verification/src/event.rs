//! The events that reach a widget, and what a widget answers.
use crate::keyboard;
use crate::mouse;
use crate::touch;
use crate::window;
use vstd::prelude::*;

verus! {

/// Something that happened outside and is handed to the widgets.
#[derive(Clone, Copy, Debug, PartialEq, Eq, Structural)]
pub enum Event {
    Keyboard(keyboard::Event),
    Mouse(mouse::Event),
    Window(window::Event),
    Touch(touch::Event),
}

/// What became of an event.
#[derive(Clone, Copy, Debug, PartialEq, Eq, Structural)]
pub enum Status {
    /// Nothing took the event. It may go on to other widgets.
    Ignored,
    /// The event was taken, and is to go no further.
    Captured,
}

} // verus!
