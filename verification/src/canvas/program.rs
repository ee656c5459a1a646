//! What the user of a canvas writes.
use crate::canvas::cursor::Cursor;
use crate::canvas::event::{Event, Status};
use crate::mouse::Interaction;
use crate::units::Rectangle;
use vstd::prelude::*;

verus! {

/// The program of a canvas: what it draws, and optionally how it takes
/// events and what it tells the mouse.
///
/// A program may state what its methods do, in `draws`, `updates` and
/// `hints`, and a canvas then promises as much of what it hands on. A
/// program that states nothing leaves the three as they are.
pub trait Program: Sized {
    /// What the program has to say to the application.
    type Message;

    /// What a drawing is made of. The canvas keeps and hands out such
    /// pieces and never looks inside one.
    type Geometry;

    /// Whether `geometry` can be what `draw` returns for `bounds` and
    /// `cursor`.
    open spec fn draws(
        &self,
        bounds: Rectangle,
        cursor: Cursor,
        geometry: Seq<Self::Geometry>,
    ) -> bool {
        true
    }

    /// Whether `update` can answer `event` with `outcome` and leave the
    /// program as `after`. Besides what is stated here a program may
    /// always ignore an event, as long as it then says nothing and stays as
    /// it is.
    open spec fn updates(
        &self,
        event: Event,
        bounds: Rectangle,
        cursor: Cursor,
        after: &Self,
        outcome: (Status, Option<Self::Message>),
    ) -> bool {
        true
    }

    /// Whether `interaction` can be what `mouse_interaction` returns for
    /// `bounds` and `cursor`. Besides what is stated here a program may
    /// always give no hint.
    open spec fn hints(&self, bounds: Rectangle, cursor: Cursor, interaction: Interaction) -> bool {
        true
    }

    /// Draws the canvas for `bounds`, with the mouse at `cursor`.
    fn draw(&self, bounds: Rectangle, cursor: Cursor) -> (geometry: Vec<Self::Geometry>)
        ensures
            self.draws(bounds, cursor, geometry@),
    ;

    /// Takes an event, and answers whether it was used and what the
    /// application is to hear of it. Unless the program says otherwise it
    /// ignores the event and has nothing to say.
    fn update(&mut self, event: Event, bounds: Rectangle, cursor: Cursor) -> (outcome: (
        Status,
        Option<Self::Message>,
    ))
        ensures
            outcome == (Status::Ignored, None::<Self::Message>) && *final(self) == *old(self)
                || old(self).updates(event, bounds, cursor, &*final(self), outcome),
    {
        (Status::Ignored, None)
    }

    /// Tells what the mouse would do at `cursor`. Unless the program says
    /// otherwise, nothing special.
    fn mouse_interaction(&self, bounds: Rectangle, cursor: Cursor) -> (interaction: Interaction)
        ensures
            interaction == Interaction::Idle || self.hints(bounds, cursor, interaction),
    {
        Interaction::default()
    }
}

/// Whether `program` can answer `event` with `outcome` and be `after` from
/// then on: it ignored the event, said nothing and did not change, or it did
/// what it states in `updates`.
pub open spec fn answers<P: Program>(
    program: &P,
    event: Event,
    bounds: Rectangle,
    cursor: Cursor,
    after: &P,
    outcome: (Status, Option<P::Message>),
) -> bool {
    ||| outcome == (Status::Ignored, None::<P::Message>) && after == program
    ||| program.updates(event, bounds, cursor, after, outcome)
}

} // verus!
