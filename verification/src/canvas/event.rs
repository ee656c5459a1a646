//! The events that a canvas hands to its program.
use crate::event;
use crate::keyboard;
use crate::mouse;
use vstd::prelude::*;

pub use crate::event::Status;

verus! {

/// An event that a canvas program gets to see: one of the mouse or one of
/// the keyboard.
#[derive(Clone, Copy, Debug, PartialEq, Eq, Structural)]
pub enum Event {
    Mouse(mouse::Event),
    Keyboard(keyboard::Event),
}

impl Event {
    /// What a canvas makes of `event`: mouse and keyboard events are for the
    /// program, and nothing else is.
    pub open spec fn recognized(event: event::Event) -> Option<Event> {
        match event {
            event::Event::Mouse(mouse_event) => Some(Event::Mouse(mouse_event)),
            event::Event::Keyboard(keyboard_event) => Some(Event::Keyboard(keyboard_event)),
            _ => None,
        }
    }

    /// Returns the event for the program that `event` amounts to, or `None`
    /// for an event that is none of the program's business.
    pub fn from_native(event: event::Event) -> (canvas_event: Option<Event>)
        ensures
            canvas_event == Event::recognized(event),
    {
        match event {
            event::Event::Mouse(mouse_event) => Some(Event::Mouse(mouse_event)),
            event::Event::Keyboard(keyboard_event) => Some(Event::Keyboard(keyboard_event)),
            _ => None,
        }
    }
}

} // verus!
