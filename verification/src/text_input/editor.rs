//! The edits of a text input.
use crate::text_input::cursor::{Cursor, State};
use crate::text_input::value::Value;
use vstd::prelude::*;

verus! {

/// The text and cursor that `paste` leaves: the selected range, if any, is
/// replaced by `content`, which otherwise goes in at the caret, and a caret
/// stands behind what was put in.
pub open spec fn pasted(text: Seq<char>, cursor: State, content: Seq<char>) -> (Seq<char>, State) {
    let at = cursor.on(text.len());
    (
        text.subrange(0, at.left() as int) + content + text.subrange(
            at.right() as int,
            text.len() as int,
        ),
        State::Index((at.left() + content.len()) as usize),
    )
}

/// The text and cursor that `insert` leaves: those of pasting the single
/// character.
pub open spec fn inserted(text: Seq<char>, cursor: State, character: char) -> (Seq<char>, State) {
    pasted(text, cursor, seq![character])
}

/// The text and cursor that removing the selected range leaves: a caret at
/// the left edge of what was selected.
pub open spec fn selection_removed(text: Seq<char>, cursor: State) -> (Seq<char>, State) {
    let at = cursor.on(text.len());
    (
        text.subrange(0, at.left() as int) + text.subrange(at.right() as int, text.len() as int),
        State::Index(at.left()),
    )
}

/// The text and cursor that `backspace` leaves.
pub open spec fn backspaced(text: Seq<char>, cursor: State) -> (Seq<char>, State) {
    let at = cursor.on(text.len());
    if at is Selection {
        selection_removed(text, cursor)
    } else if at.left() > 0 {
        (text.remove(at.left() - 1), State::Index((at.left() - 1) as usize))
    } else {
        (text, cursor)
    }
}

/// The text and cursor that `delete` leaves.
pub open spec fn deleted(text: Seq<char>, cursor: State) -> (Seq<char>, State) {
    let at = cursor.on(text.len());
    if at is Selection {
        selection_removed(text, cursor)
    } else if at.right() < text.len() {
        (text.remove(at.right() as int), cursor)
    } else {
        (text, cursor)
    }
}

/// A handle that borrows a text and its cursor for the time of an edit.
///
/// While the editor lives nothing else can touch either of the two, and every
/// edit changes both in one step. When it is dropped, the text and the cursor
/// it was made from hold what the last edit left.
pub struct Editor<'a> {
    /// The text that is edited.
    pub value: &'a mut Value,
    /// The cursor that says where.
    pub cursor: &'a mut Cursor,
}

impl<'a> Editor<'a> {
    /// The text as it stands.
    pub open spec fn text(&self) -> Seq<char> {
        self.value@
    }

    /// The cursor as it stands.
    pub open spec fn caret(&self) -> State {
        self.cursor@
    }

    /// Creates an editor of `value` with `cursor`. What the editor leaves
    /// behind is what the two hold once the editor is gone.
    pub fn new(value: &'a mut Value, cursor: &'a mut Cursor) -> (editor: Editor<'a>)
        ensures
            editor.text() == old(value)@,
            editor.caret() == old(cursor)@,
            *final(value) == *final(editor.value),
            *final(cursor) == *final(editor.cursor),
    {
        Editor { value, cursor }
    }

    /// Returns the text as a `String`.
    pub fn contents(&self) -> (contents: String)
        ensures
            contents@ == self.text(),
    {
        self.value.to_string()
    }

    /// Types `character`: it replaces the selection, or goes in at the
    /// caret, and the caret ends up behind it.
    pub fn insert(&mut self, character: char)
        ensures
            (final(self).text(), final(self).caret()) == inserted(
                old(self).text(),
                old(self).caret(),
                character,
            ),
            old(self).caret().fits(old(self).text().len()) ==> final(self).caret().fits(
                final(self).text().len(),
            ),
            *final(final(self).value) == *final(old(self).value),
            *final(final(self).cursor) == *final(old(self).cursor),
    {
        match self.cursor.selection(self.value) {
            Some((left, right)) => {
                self.cursor.move_left(self.value);
                self.value.remove_many(left, right);
            },
            None => (),
        }
        self.value.insert(self.cursor.end(self.value), character);
        self.cursor.move_right(self.value);
    }

    /// Pastes `content`: it replaces the selection, or goes in at the caret,
    /// and the caret ends up behind it.
    pub fn paste(&mut self, content: Value)
        ensures
            (final(self).text(), final(self).caret()) == pasted(
                old(self).text(),
                old(self).caret(),
                content@,
            ),
            old(self).caret().fits(old(self).text().len()) ==> final(self).caret().fits(
                final(self).text().len(),
            ),
            *final(final(self).value) == *final(old(self).value),
            *final(final(self).cursor) == *final(old(self).cursor),
    {
        let length = content.len();
        match self.cursor.selection(self.value) {
            Some((left, right)) => {
                self.cursor.move_left(self.value);
                self.value.remove_many(left, right);
            },
            None => (),
        }
        // A selection left over from a longer text counts as a caret at the
        // end. Put the caret there before the text grows under it.
        let at = self.cursor.end(self.value);
        self.cursor.move_to(at);
        self.value.insert_many(at, content);
        assert(self.value@ =~= pasted(old(self).text(), old(self).caret(), content@).0);
        self.cursor.move_right_by_amount(self.value, length);
    }

    /// Removes the selection, or else the character in front of the caret,
    /// and leaves the caret where the removed text began. With a caret at
    /// the front nothing changes.
    pub fn backspace(&mut self)
        ensures
            (final(self).text(), final(self).caret()) == backspaced(
                old(self).text(),
                old(self).caret(),
            ),
            old(self).caret().fits(old(self).text().len()) ==> final(self).caret().fits(
                final(self).text().len(),
            ),
            *final(final(self).value) == *final(old(self).value),
            *final(final(self).cursor) == *final(old(self).cursor),
    {
        match self.cursor.selection(self.value) {
            Some((start, end)) => {
                self.cursor.move_left(self.value);
                self.value.remove_many(start, end);
            },
            None => {
                let start = self.cursor.start(self.value);
                if start > 0 {
                    self.cursor.move_left(self.value);
                    let _ = self.value.remove(start - 1);
                }
            },
        }
    }

    /// Removes the selection and leaves the caret where it began, or else
    /// removes the character behind the caret and leaves the caret alone.
    /// With a caret at the end nothing changes.
    pub fn delete(&mut self)
        ensures
            (final(self).text(), final(self).caret()) == deleted(
                old(self).text(),
                old(self).caret(),
            ),
            old(self).caret().fits(old(self).text().len()) ==> final(self).caret().fits(
                final(self).text().len(),
            ),
            *final(final(self).value) == *final(old(self).value),
            *final(final(self).cursor) == *final(old(self).cursor),
    {
        match self.cursor.selection(self.value) {
            Some((start, end)) => {
                self.cursor.move_left(self.value);
                self.value.remove_many(start, end);
            },
            None => {
                let end = self.cursor.end(self.value);
                if end < self.value.len() {
                    let _ = self.value.remove(end);
                }
            },
        }
    }
}

/// Backspace with a caret in front of the first character changes neither the
/// text nor the cursor.
pub proof fn lemma_backspace_at_front(text: Seq<char>, cursor: State)
    requires
        cursor.on(text.len()) == State::Index(0),
    ensures
        backspaced(text, cursor) == (text, cursor),
{
}

/// Typing a character over a selection from `start` to `end` leaves the text
/// before `start`, the character, and the text from `end` on, with the caret
/// behind the character. It does not matter which end the selection was
/// begun from.
pub proof fn lemma_insert_replaces_selection(
    text: Seq<char>,
    cursor: State,
    start: usize,
    end: usize,
    character: char,
)
    requires
        start < end <= text.len(),
        cursor == (State::Selection { anchor: start, head: end }) || cursor == (State::Selection {
            anchor: end,
            head: start,
        }),
    ensures
        inserted(text, cursor, character) == (
            text.subrange(0, start as int) + seq![character] + text.subrange(
                end as int,
                text.len() as int,
            ),
            State::Index((start + 1) as usize),
        ),
{
}

/// Pasting at a caret puts the content between the text before the caret and
/// the text behind it, and moves the caret forward by the length of the
/// content.
pub proof fn lemma_paste_at_caret(text: Seq<char>, caret: usize, content: Seq<char>)
    requires
        caret <= text.len(),
        text.len() + content.len() <= usize::MAX,
    ensures
        pasted(text, State::Index(caret), content).0 == text.subrange(0, caret as int) + content
            + text.subrange(caret as int, text.len() as int),
        pasted(text, State::Index(caret), content).1 == State::Index(
            (caret + content.len()) as usize,
        ),
        pasted(text, State::Index(caret), content).1.left() == caret + content.len(),
{
}

/// On a selection, `delete` and `backspace` leave the same text and the same
/// cursor: the text without the selected range, and a caret where the range
/// began.
pub proof fn lemma_delete_and_backspace_agree_on_selection(text: Seq<char>, cursor: State)
    requires
        cursor.on(text.len()) is Selection,
    ensures
        deleted(text, cursor) == backspaced(text, cursor),
        deleted(text, cursor) == selection_removed(text, cursor),
{
}

/// Typing a character at a caret and then pressing backspace brings back the
/// text and the caret from before.
pub proof fn lemma_insert_then_backspace_restores(text: Seq<char>, caret: usize, character: char)
    requires
        caret <= text.len(),
        text.len() < usize::MAX,
    ensures
        ({
            let typed = inserted(text, State::Index(caret), character);
            backspaced(typed.0, typed.1) == (text, State::Index(caret))
        }),
{
    let typed = inserted(text, State::Index(caret), character);
    assert(typed.0.len() == text.len() + 1);
    assert(typed.0.remove(caret as int) =~= text);
}

/// A cursor that lies within the text lies within the text after any edit.
pub proof fn lemma_edits_keep_cursor_in_text(
    text: Seq<char>,
    cursor: State,
    character: char,
    content: Seq<char>,
)
    requires
        cursor.fits(text.len()),
        text.len() + content.len() <= usize::MAX,
        text.len() < usize::MAX,
    ensures
        inserted(text, cursor, character).1.fits(inserted(text, cursor, character).0.len()),
        pasted(text, cursor, content).1.fits(pasted(text, cursor, content).0.len()),
        backspaced(text, cursor).1.fits(backspaced(text, cursor).0.len()),
        deleted(text, cursor).1.fits(deleted(text, cursor).0.len()),
{
}

} // verus!
