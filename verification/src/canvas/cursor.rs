//! The mouse cursor as a canvas sees it.
use crate::units::Point;
use vstd::prelude::*;

verus! {

/// The mouse cursor over a window: at a position, or nowhere to be had.
#[derive(Clone, Copy, Debug, PartialEq, Eq, Structural)]
pub enum Cursor {
    /// The cursor is at this position in the window.
    Available(Point),
    /// The cursor is outside the window, or taken by something else.
    Unavailable,
}

impl Cursor {
    /// The cursor that `position` stands for. A position left of the window
    /// or above it is how a cursor that is not there is reported.
    pub open spec fn at(position: Point) -> Cursor {
        if position.x >= 0 && position.y >= 0 {
            Cursor::Available(position)
        } else {
            Cursor::Unavailable
        }
    }

    /// Makes the cursor of a position in the window.
    pub fn from_window_position(position: Point) -> (cursor: Cursor)
        ensures
            cursor == Cursor::at(position),
    {
        if position.x >= 0 && position.y >= 0 {
            Cursor::Available(position)
        } else {
            Cursor::Unavailable
        }
    }

    /// Returns the position of the cursor in the window, if it has one.
    pub fn position(&self) -> (position: Option<Point>)
        ensures
            position == match *self {
                Cursor::Available(point) => Some(point),
                Cursor::Unavailable => None,
            },
    {
        match *self {
            Cursor::Available(point) => Some(point),
            Cursor::Unavailable => None,
        }
    }
}

} // verus!
