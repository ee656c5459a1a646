//! What a touch screen tells a widget.
use crate::units::Point;
use vstd::prelude::*;

verus! {

/// Something that a finger did, with the number that tells the fingers apart.
#[derive(Clone, Copy, Debug, PartialEq, Eq, Structural)]
pub enum Event {
    FingerPressed { id: u64, position: Point },
    FingerMoved { id: u64, position: Point },
    FingerLifted { id: u64, position: Point },
    /// The touch was taken away from the window.
    FingerLost { id: u64, position: Point },
}

} // verus!
