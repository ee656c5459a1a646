//! A widget that draws what its program tells it to.
pub mod cache;
pub mod cursor;
pub mod event;
pub mod program;

pub use cache::Cache;
pub use cursor::Cursor;
pub use event::Event;
pub use program::Program;

use crate::canvas::cache::kept;
use crate::canvas::program::answers;
use crate::event::Status;
use crate::layout::{resolved_axis, Limits};
use crate::mouse::Interaction;
use crate::shell::Shell;
use crate::units::{Length, Point, Rectangle, Size};
use vstd::prelude::*;

verus! {

/// The width and the height of a canvas that was not told its size.
pub const DEFAULT_SIZE: u16 = 100;

/// A widget that draws what its program tells it to, and keeps the geometry
/// that came of it.
///
/// The canvas asks its program to draw only when it holds no geometry for the
/// size at hand. Whatever changes the drawing has to call
/// [`Canvas::invalidate`], or the old geometry stays on screen.
pub struct Canvas<P: Program> {
    width: Length,
    height: Length,
    program: P,
    cache: Cache<P::Geometry>,
}

/// What a canvas is made of, as contracts see it.
pub struct Surface<P: Program> {
    pub width: Length,
    pub height: Length,
    pub program: P,
    /// The size of the last drawing and its geometry, if they are kept.
    pub cache: Option<(Size, Seq<P::Geometry>)>,
}

impl<P: Program> View for Canvas<P> {
    type V = Surface<P>;

    closed spec fn view(&self) -> Surface<P> {
        Surface {
            width: self.width,
            height: self.height,
            program: self.program,
            cache: self.cache@,
        }
    }
}

/// Whether there is too little of `bounds` to draw in: less than one unit
/// across or less than one unit high.
pub open spec fn degenerate(bounds: Rectangle) -> bool {
    bounds.width < 1 || bounds.height < 1
}

impl<P: Program> Surface<P> {
    /// This canvas with its geometry thrown away.
    pub open spec fn invalidated(self) -> Surface<P> {
        Surface { cache: None, ..self }
    }

    /// Whether a call of `on_event` on this canvas, with `event`, `bounds`
    /// and the mouse at `cursor_position`, and with `shell` holding the
    /// messages so far, can return `status` and leave the canvas as `after`
    /// and the messages as `shell_after`.
    ///
    /// An event that is none of the mouse or the keyboard is ignored, and
    /// nothing changes. A mouse or keyboard event goes to the program, with
    /// the bounds and the cursor: the status is the program's, the message
    /// of the program, if it has one, is published once behind the others,
    /// and nothing of the canvas but the program changes.
    pub open spec fn handled(
        self,
        event: crate::event::Event,
        bounds: Rectangle,
        cursor_position: Point,
        shell: Seq<P::Message>,
        status: Status,
        after: Surface<P>,
        shell_after: Seq<P::Message>,
    ) -> bool {
        match Event::recognized(event) {
            None => status == Status::Ignored && after == self && shell_after == shell,
            Some(canvas_event) => {
                let message = published(shell, shell_after);
                &&& answers(
                    &self.program,
                    canvas_event,
                    bounds,
                    Cursor::at(cursor_position),
                    &after.program,
                    (status, message),
                )
                &&& shell_after == match message {
                    Some(message) => shell.push(message),
                    None => shell,
                }
                &&& after == (Surface { program: after.program, ..self })
            },
        }
    }

    /// Whether a call of `draw` on this canvas, for `bounds` and with the
    /// mouse at `cursor_position`, can return `primitives` and leave the
    /// canvas as `after`.
    ///
    /// In bounds too small to draw in there are no primitives and nothing
    /// changes. Where the canvas holds geometry for the size of the bounds,
    /// that geometry is the result and nothing changes: the program is left
    /// out of it. Else the result is a drawing of the program for these
    /// bounds and this cursor, and the canvas keeps it.
    pub open spec fn drawn(
        self,
        bounds: Rectangle,
        cursor_position: Point,
        primitives: Seq<P::Geometry>,
        after: Surface<P>,
    ) -> bool {
        if degenerate(bounds) {
            primitives == Seq::<P::Geometry>::empty() && after == self
        } else {
            match kept(self.cache, bounds.extent()) {
                Some(geometry) => primitives == geometry && after == self,
                None => {
                    &&& self.program.draws(bounds, Cursor::at(cursor_position), primitives)
                    &&& after == (Surface { cache: Some((bounds.extent(), primitives)), ..self })
                },
            }
        }
    }
}

/// The message that was published between `before` and `after`, if the
/// second holds one more than the first.
pub open spec fn published<Message>(before: Seq<Message>, after: Seq<Message>) -> Option<Message> {
    if after.len() > before.len() {
        Some(after.last())
    } else {
        None
    }
}

/// Publishes what a program answered to an event, and returns what became of
/// the event: the message, if there is one, goes to the shell once, and the
/// status is the program's.
pub fn forward<Message>(outcome: (Status, Option<Message>), shell: &mut Shell<Message>) -> (status:
    Status)
    ensures
        status == outcome.0,
        final(shell)@ == match outcome.1 {
            Some(message) => old(shell)@.push(message),
            None => old(shell)@,
        },
{
    let (status, message) = outcome;
    if let Some(message) = message {
        shell.publish(message);
    }
    status
}

impl<P: Program> Canvas<P> {
    /// Creates a canvas of the default size that draws with `program` and
    /// holds no geometry yet.
    pub fn new(program: P) -> (canvas: Self)
        ensures
            canvas@ == (Surface {
                width: Length::Units(DEFAULT_SIZE),
                height: Length::Units(DEFAULT_SIZE),
                program,
                cache: None,
            }),
    {
        Canvas {
            width: Length::Units(DEFAULT_SIZE),
            height: Length::Units(DEFAULT_SIZE),
            program,
            cache: Cache::new(),
        }
    }

    /// Sets the width of the canvas.
    pub fn width(self, width: Length) -> (canvas: Self)
        ensures
            canvas@ == (Surface { width, ..self@ }),
    {
        let mut canvas = self;
        canvas.width = width;
        canvas
    }

    /// Sets the height of the canvas.
    pub fn height(self, height: Length) -> (canvas: Self)
        ensures
            canvas@ == (Surface { height, ..self@ }),
    {
        let mut canvas = self;
        canvas.height = height;
        canvas
    }

    /// Returns the size that the canvas takes within `limits`. Along each
    /// axis a fixed length is brought into the limits, a filling length
    /// takes what there is to fill, and a shrinking one takes the least
    /// allowed.
    pub fn layout(&self, limits: &Limits) -> (size: Size)
        ensures
            size.width == resolved_axis(
                self@.width,
                limits.min.width,
                limits.max.width,
                limits.fill.width,
            ),
            size.height == resolved_axis(
                self@.height,
                limits.min.height,
                limits.max.height,
                limits.fill.height,
            ),
    {
        let limits = limits.width(self.width).height(self.height);
        limits.resolve(Size::new(0, 0))
    }

    /// Hands a mouse or keyboard event to the program, publishes the
    /// message that the program answers with, if any, and returns the
    /// program's status. Any other event is ignored, and changes nothing.
    ///
    /// The geometry that the canvas holds stays as it is, whatever the
    /// program does with the event.
    pub fn on_event(
        &mut self,
        event: crate::event::Event,
        bounds: Rectangle,
        cursor_position: Point,
        shell: &mut Shell<P::Message>,
    ) -> (status: Status)
        ensures
            old(self)@.handled(
                event,
                bounds,
                cursor_position,
                old(shell)@,
                status,
                final(self)@,
                final(shell)@,
            ),
    {
        let cursor = Cursor::from_window_position(cursor_position);
        match Event::from_native(event) {
            Some(canvas_event) => {
                let outcome = self.program.update(canvas_event, bounds, cursor);
                forward(outcome, shell)
            },
            None => Status::Ignored,
        }
    }

    /// Returns what the program says that the mouse would do at
    /// `cursor_position`: no hint, or one of those that the program states.
    pub fn mouse_interaction(&self, bounds: Rectangle, cursor_position: Point) -> (interaction:
        Interaction)
        ensures
            interaction == Interaction::Idle || self@.program.hints(
                bounds,
                Cursor::at(cursor_position),
                interaction,
            ),
    {
        let cursor = Cursor::from_window_position(cursor_position);
        self.program.mouse_interaction(bounds, cursor)
    }

    /// Returns the primitives to put on screen within `bounds`.
    ///
    /// In bounds less than one unit across or high there is nothing to
    /// draw. Geometry that the canvas holds for the size of the bounds is
    /// handed out as it is. Only where there is none does the program draw,
    /// and the canvas keeps the outcome for the next time.
    pub fn draw(&mut self, bounds: Rectangle, cursor_position: Point) -> (primitives: &[P::Geometry])
        ensures
            old(self)@.drawn(bounds, cursor_position, primitives@, final(self)@),
    {
        if bounds.width < 1 || bounds.height < 1 {
            let nothing: &[P::Geometry] = &[];
            assert(nothing@ =~= Seq::<P::Geometry>::empty());
            return nothing;
        }
        let size = bounds.size();
        if self.cache.lookup(size).is_none() {
            let cursor = Cursor::from_window_position(cursor_position);
            let geometry = self.program.draw(bounds, cursor);
            self.cache.store(size, geometry);
        }
        match self.cache.lookup(size) {
            Some(geometry) => geometry,
            None => &[],
        }
    }

    /// Throws away the geometry that the canvas holds, so that the next
    /// drawing asks the program again.
    pub fn invalidate(&mut self)
        ensures
            final(self)@ == old(self)@.invalidated(),
    {
        self.cache.clear();
    }
}

/// Drawing a second time for bounds of the same size, with no invalidation
/// in between, returns the geometry of the first drawing and leaves the
/// canvas as the first drawing left it.
pub proof fn lemma_redraw_reuses_geometry<P: Program>(
    before: Surface<P>,
    bounds: Rectangle,
    cursor_position: Point,
    first: Seq<P::Geometry>,
    between: Surface<P>,
    bounds_again: Rectangle,
    cursor_position_again: Point,
    second: Seq<P::Geometry>,
    after: Surface<P>,
)
    requires
        !degenerate(bounds),
        bounds_again.extent() == bounds.extent(),
        before.drawn(bounds, cursor_position, first, between),
        between.drawn(bounds_again, cursor_position_again, second, after),
    ensures
        second == first,
        after == between,
{
}

/// The first drawing after an invalidation is a new drawing of the program,
/// and the canvas keeps it.
pub proof fn lemma_invalidated_draws_afresh<P: Program>(
    before: Surface<P>,
    bounds: Rectangle,
    cursor_position: Point,
    primitives: Seq<P::Geometry>,
    after: Surface<P>,
)
    requires
        !degenerate(bounds),
        before.invalidated().drawn(bounds, cursor_position, primitives, after),
    ensures
        before.program.draws(bounds, Cursor::at(cursor_position), primitives),
        after.cache == Some((bounds.extent(), primitives)),
{
}

/// In bounds less than one unit across or less than one unit high a canvas
/// draws no primitive, whatever it holds.
pub proof fn lemma_degenerate_bounds_draw_nothing<P: Program>(
    before: Surface<P>,
    bounds: Rectangle,
    cursor_position: Point,
    primitives: Seq<P::Geometry>,
    after: Surface<P>,
)
    requires
        bounds.width < 1 || bounds.height < 1,
        before.drawn(bounds, cursor_position, primitives, after),
    ensures
        primitives.len() == 0,
        after == before,
{
}

} // verus!
