//! The contents of a text input.
use vstd::prelude::*;

verus! {

/// The text of an input: an ordered sequence of characters, addressed by
/// character offset.
///
/// Every operation accepts any offset and clamps it to the current length, so
/// none of them can reach outside the text.
pub struct Value {
    chars: Vec<char>,
}

impl View for Value {
    type V = Seq<char>;

    closed spec fn view(&self) -> Seq<char> {
        self.chars@
    }
}

/// The offset `index` as it lands in a text of `len` characters.
pub open spec fn clamp(index: int, len: int) -> int {
    if index < len {
        index
    } else {
        len
    }
}

/// `text` without the characters from `start` up to `end`, both clamped to
/// the text. Nothing is removed when the range is empty or reversed.
pub open spec fn without_range(text: Seq<char>, start: int, end: int) -> Seq<char>
    recommends
        0 <= start,
        0 <= end,
{
    let first = clamp(start, text.len() as int);
    let last = clamp(end, text.len() as int);
    if first < last {
        text.subrange(0, first) + text.subrange(last, text.len() as int)
    } else {
        text
    }
}

/// `text` with `content` spliced in at `index`, clamped to the text.
pub open spec fn with_inserted(text: Seq<char>, index: int, content: Seq<char>) -> Seq<char>
    recommends
        0 <= index,
{
    let at = clamp(index, text.len() as int);
    text.subrange(0, at) + content + text.subrange(at, text.len() as int)
}

/// `String::push` appends the character to the end of the string and leaves
/// the characters before it as they were.
pub assume_specification[ String::push ](string: &mut String, ch: char)
    ensures
        final(string)@ == old(string)@.push(ch),
;

impl Value {
    /// Creates a value that holds the characters of `string`.
    pub fn new(string: &str) -> (value: Value)
        ensures
            value@ == string@,
    {
        let mut chars: Vec<char> = Vec::new();
        for c in it: string.chars()
            invariant
                chars@ == it.seq().take(it.index() as int),
                it.seq() == string@,
        {
            chars.push(c);
        }
        Value { chars }
    }

    /// Returns the number of characters.
    pub fn len(&self) -> (len: usize)
        ensures
            len == self@.len(),
    {
        self.chars.len()
    }

    /// Returns whether the value holds no character.
    pub fn is_empty(&self) -> (empty: bool)
        ensures
            empty == (self@.len() == 0),
    {
        self.chars.len() == 0
    }

    /// Inserts `c` in front of the character at `index`, or at the end when
    /// `index` lies past it.
    pub fn insert(&mut self, index: usize, c: char)
        ensures
            final(self)@ == with_inserted(old(self)@, index as int, seq![c]),
    {
        let at = if index < self.chars.len() {
            index
        } else {
            self.chars.len()
        };
        self.chars.insert(at, c);
        assert(self.chars@ =~= with_inserted(old(self)@, index as int, seq![c]));
    }

    /// Inserts all of `content` in front of the character at `index`, or at
    /// the end when `index` lies past it.
    pub fn insert_many(&mut self, index: usize, content: Value)
        ensures
            final(self)@ == with_inserted(old(self)@, index as int, content@),
    {
        let at = if index < self.chars.len() {
            index
        } else {
            self.chars.len()
        };
        let mut content = content;
        let mut tail = self.chars.split_off(at);
        self.chars.append(&mut content.chars);
        self.chars.append(&mut tail);
    }

    /// Removes the character at `index` and returns it. Past the end there is
    /// nothing to remove.
    pub fn remove(&mut self, index: usize) -> (removed: Option<char>)
        ensures
            final(self)@ == without_range(old(self)@, index as int, index + 1),
            removed == if index < old(self)@.len() {
                Some(old(self)@[index as int])
            } else {
                None
            },
    {
        if index < self.chars.len() {
            let c = self.chars.remove(index);
            assert(self.chars@ =~= without_range(old(self)@, index as int, index + 1));
            Some(c)
        } else {
            None
        }
    }

    /// Removes the characters from `start` up to, and without, `end`.
    pub fn remove_many(&mut self, start: usize, end: usize)
        ensures
            final(self)@ == without_range(old(self)@, start as int, end as int),
    {
        let len = self.chars.len();
        let first = if start < len {
            start
        } else {
            len
        };
        let last = if end < len {
            end
        } else {
            len
        };
        if first < last {
            let mut tail = self.chars.split_off(last);
            self.chars.truncate(first);
            self.chars.append(&mut tail);
        }
    }

    /// Returns the text as a `String`.
    pub fn to_string(&self) -> (string: String)
        ensures
            string@ == self@,
    {
        let mut string = String::new();
        let mut i: usize = 0;
        while i < self.chars.len()
            invariant
                i <= self.chars.len(),
                string@ == self.chars@.take(i as int),
            decreases self.chars.len() - i,
        {
            string.push(self.chars[i]);
            i += 1;
        }
        string
    }
}

} // verus!
