//! The cursor of a text input.
use crate::text_input::value::Value;
use vstd::prelude::*;

verus! {

/// Where a cursor stands: at a single offset, or over the range between the
/// offset where a selection began and the offset it was dragged to.
#[derive(Clone, Copy, Debug, PartialEq, Eq, Structural)]
pub enum State {
    /// A caret in front of the character at this offset.
    Index(usize),
    /// A selection. `anchor` stays where the selection began and `head`
    /// moves; either may be the smaller one.
    Selection { anchor: usize, head: usize },
}

/// The offset `index` as it lands in a text of `len` characters.
pub open spec fn clamped(index: usize, len: nat) -> usize {
    if index < len {
        index
    } else {
        len as usize
    }
}

impl State {
    /// This state as it applies to a text of `len` characters: every offset
    /// is clamped to the text, and a selection whose two offsets then
    /// coincide counts as a caret.
    pub open spec fn on(self, len: nat) -> State {
        match self {
            State::Index(index) => State::Index(clamped(index, len)),
            State::Selection { anchor, head } => {
                if clamped(anchor, len) == clamped(head, len) {
                    State::Index(clamped(anchor, len))
                } else {
                    State::Selection { anchor: clamped(anchor, len), head: clamped(head, len) }
                }
            },
        }
    }

    /// The smaller offset of a selection, or the offset of a caret.
    pub open spec fn left(self) -> usize {
        match self {
            State::Index(index) => index,
            State::Selection { anchor, head } => if anchor <= head {
                anchor
            } else {
                head
            },
        }
    }

    /// The larger offset of a selection, or the offset of a caret.
    pub open spec fn right(self) -> usize {
        match self {
            State::Index(index) => index,
            State::Selection { anchor, head } => if anchor <= head {
                head
            } else {
                anchor
            },
        }
    }

    /// Whether every offset of this state lies within a text of `len`
    /// characters.
    pub open spec fn fits(self, len: nat) -> bool {
        self.right() <= len
    }

    /// Where a move of `amount` characters to the right takes this state on
    /// a text of `len` characters: a caret goes as far as the end, and a
    /// selection collapses to its right edge.
    pub open spec fn moved_right(self, amount: usize, len: nat) -> State {
        match self {
            State::Index(index) => State::Index(
                if index + amount < len {
                    (index + amount) as usize
                } else {
                    len as usize
                },
            ),
            State::Selection { .. } => State::Index(self.right()),
        }
    }

    /// Where a move of one character to the left takes this state: a caret
    /// goes as far as the front, and a selection collapses to its left edge.
    pub open spec fn moved_left(self) -> State {
        match self {
            State::Index(index) => State::Index(
                if index > 0 {
                    (index - 1) as usize
                } else {
                    0
                },
            ),
            State::Selection { .. } => State::Index(self.left()),
        }
    }
}

/// The cursor of a text input.
///
/// A cursor stores offsets only. Whatever reads or moves it takes the text it
/// points into and clamps the stored offsets to that text first, so a cursor
/// that was left behind by a longer text is still safe to use.
#[derive(Clone, Copy, Debug)]
pub struct Cursor {
    state: State,
}

impl View for Cursor {
    type V = State;

    closed spec fn view(&self) -> State {
        self.state
    }
}

impl Default for Cursor {
    /// A caret in front of the first character.
    fn default() -> (cursor: Cursor)
        ensures
            cursor@ == State::Index(0),
    {
        Cursor { state: State::Index(0) }
    }
}

impl Cursor {
    /// Returns the state of the cursor on `value`.
    pub fn state(&self, value: &Value) -> (state: State)
        ensures
            state == self@.on(value@.len()),
    {
        let len = value.len();
        match self.state {
            State::Index(index) => State::Index(
                if index < len {
                    index
                } else {
                    len
                },
            ),
            State::Selection { anchor, head } => {
                let anchor = if anchor < len {
                    anchor
                } else {
                    len
                };
                let head = if head < len {
                    head
                } else {
                    len
                };
                if anchor == head {
                    State::Index(anchor)
                } else {
                    State::Selection { anchor, head }
                }
            },
        }
    }

    /// Returns the left edge of the cursor on `value`: the smaller offset of
    /// a selection, or the offset of the caret.
    pub fn start(&self, value: &Value) -> (start: usize)
        ensures
            start == self@.on(value@.len()).left(),
    {
        match self.state(value) {
            State::Index(index) => index,
            State::Selection { anchor, head } => if anchor <= head {
                anchor
            } else {
                head
            },
        }
    }

    /// Returns the right edge of the cursor on `value`: the larger offset of
    /// a selection, or the offset of the caret.
    pub fn end(&self, value: &Value) -> (end: usize)
        ensures
            end == self@.on(value@.len()).right(),
    {
        match self.state(value) {
            State::Index(index) => index,
            State::Selection { anchor, head } => if anchor <= head {
                head
            } else {
                anchor
            },
        }
    }

    /// Returns the selected range of `value` as `(start, end)`, or `None`
    /// when the cursor is a caret on `value`.
    pub fn selection(&self, value: &Value) -> (selection: Option<(usize, usize)>)
        ensures
            selection == match self@.on(value@.len()) {
                State::Index(_) => None,
                State::Selection { .. } => Some(
                    (self@.on(value@.len()).left(), self@.on(value@.len()).right()),
                ),
            },
            selection matches Some((start, end)) ==> start < end <= value@.len(),
    {
        match self.state(value) {
            State::Index(_) => None,
            State::Selection { anchor, head } => if anchor <= head {
                Some((anchor, head))
            } else {
                Some((head, anchor))
            },
        }
    }

    /// Puts a caret at `position`.
    pub fn move_to(&mut self, position: usize)
        ensures
            final(self)@ == State::Index(position),
    {
        self.state = State::Index(position);
    }

    /// Selects the range between `start` and `end`. With equal offsets this
    /// puts a caret there.
    pub fn select_range(&mut self, start: usize, end: usize)
        ensures
            final(self)@ == if start == end {
                State::Index(start)
            } else {
                State::Selection { anchor: start, head: end }
            },
    {
        if start == end {
            self.state = State::Index(start);
        } else {
            self.state = State::Selection { anchor: start, head: end };
        }
    }

    /// Moves a caret one character to the left, unless it stands at the
    /// front. A selection collapses to a caret at its left edge.
    pub fn move_left(&mut self, value: &Value)
        ensures
            final(self)@ == old(self)@.on(value@.len()).moved_left(),
    {
        match self.state(value) {
            State::Index(index) => {
                if index > 0 {
                    self.move_to(index - 1)
                } else {
                    self.move_to(0)
                }
            },
            State::Selection { anchor, head } => {
                if anchor <= head {
                    self.move_to(anchor)
                } else {
                    self.move_to(head)
                }
            },
        }
    }

    /// Moves a caret one character to the right, unless it stands at the
    /// end. A selection collapses to a caret at its right edge.
    pub fn move_right(&mut self, value: &Value)
        ensures
            final(self)@ == old(self)@.on(value@.len()).moved_right(1, value@.len()),
    {
        self.move_right_by_amount(value, 1)
    }

    /// Moves a caret `amount` characters to the right, and no further than
    /// the end. A selection collapses to a caret at its right edge.
    pub fn move_right_by_amount(&mut self, value: &Value, amount: usize)
        ensures
            final(self)@ == old(self)@.on(value@.len()).moved_right(amount, value@.len()),
    {
        let len = value.len();
        match self.state(value) {
            State::Index(index) => {
                if amount < len - index {
                    self.move_to(index + amount)
                } else {
                    self.move_to(len)
                }
            },
            State::Selection { anchor, head } => {
                if anchor <= head {
                    self.move_to(head)
                } else {
                    self.move_to(anchor)
                }
            },
        }
    }
}

} // verus!
