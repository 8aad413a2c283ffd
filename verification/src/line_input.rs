//! A single-line text input with a cursor, used by the argument, rename and
//! picker-filter inputs and by the chat input box.
//!
//! The cursor is a character position: `0` is before the first character,
//! `input.len()` after the last.

use vstd::prelude::*;
use vstd::string::*;

verus! {

/// Converts one character into a string.
#[verifier::external_body]
fn char_to_string(c: char) -> (r: String)
    ensures
        r@ == seq![c],
{
    c.to_string()
}

/// `s` with the characters `[at, at + remove)` replaced by `insert`.
pub fn splice(s: &String, at: usize, remove: usize, insert: &str) -> (r: String)
    requires
        at + remove <= s@.len(),
    ensures
        r@ == s@.subrange(0, at as int) + insert@ + s@.subrange(at + remove, s@.len() as int),
{
    let len = s.as_str().unicode_len();
    let left = s.as_str().substring_char(0, at);
    let right = s.as_str().substring_char(at + remove, len);
    String::from_str(left).concat(insert).concat(right)
}

/// A line of text with a cursor.
#[derive(Debug)]
pub struct LineInput {
    /// The text.
    pub input: String,
    /// The cursor's position, counted in characters (not in UTF-8 bytes):
    /// the text is seen as its sequence of characters, so a cursor can
    /// never fall inside a character and every position from 0 to the
    /// character count is valid. On ASCII text the two counts agree.
    pub cursor_pos: usize,
}

impl LineInput {
    /// The cursor lies within the text.
    pub open spec fn wf(&self) -> bool {
        self.cursor_pos <= self.input@.len()
    }

    /// An empty input.
    pub fn new() -> (r: LineInput)
        ensures
            r.wf(),
            r.input@ == Seq::<char>::empty(),
            r.cursor_pos == 0,
    {
        LineInput { input: String::new(), cursor_pos: 0 }
    }

    /// Whether the text is empty.
    pub fn is_empty(&self) -> (r: bool)
        ensures
            r == (self.input@.len() == 0),
    {
        self.input.as_str().unicode_len() == 0
    }

    /// Replaces the text, with the cursor at its end.
    pub fn set(&mut self, text: String)
        ensures
            final(self).wf(),
            final(self).input@ == text@,
            final(self).cursor_pos == text@.len(),
    {
        self.cursor_pos = text.as_str().unicode_len();
        self.input = text;
    }

    /// Empties the text.
    pub fn clear(&mut self)
        ensures
            final(self).wf(),
            final(self).input@ == Seq::<char>::empty(),
            final(self).cursor_pos == 0,
    {
        self.input = String::new();
        self.cursor_pos = 0;
    }

    /// Inserts `text` at the cursor and moves the cursor past it.
    pub fn insert_str(&mut self, text: &str)
        requires
            old(self).wf(),
            old(self).input@.len() + text@.len() <= usize::MAX,
        ensures
            final(self).wf(),
            final(self).input@ == old(self).input@.subrange(0, old(self).cursor_pos as int) + text@
                + old(self).input@.subrange(old(self).cursor_pos as int, old(self).input@.len() as int),
            final(self).cursor_pos == old(self).cursor_pos + text@.len(),
    {
        let n = text.unicode_len();
        let updated = splice(&self.input, self.cursor_pos, 0, text);
        self.input = updated;
        self.cursor_pos = self.cursor_pos + n;
    }

    /// Inserts one character at the cursor and moves the cursor past it.
    pub fn insert_char(&mut self, ch: char)
        requires
            old(self).wf(),
            old(self).input@.len() + 1 <= usize::MAX,
        ensures
            final(self).wf(),
            final(self).input@ == old(self).input@.subrange(0, old(self).cursor_pos as int) + seq![ch]
                + old(self).input@.subrange(old(self).cursor_pos as int, old(self).input@.len() as int),
            final(self).cursor_pos == old(self).cursor_pos + 1,
    {
        let s = char_to_string(ch);
        self.insert_str(s.as_str());
    }

    /// Deletes the character before the cursor; no-op at the start.
    pub fn delete_back(&mut self)
        requires
            old(self).wf(),
        ensures
            final(self).wf(),
            old(self).cursor_pos == 0 ==> *final(self) == *old(self),
            old(self).cursor_pos > 0 ==> {
                &&& final(self).input@ == old(self).input@.remove(old(self).cursor_pos - 1)
                &&& final(self).cursor_pos == old(self).cursor_pos - 1
            },
    {
        if self.cursor_pos == 0 {
            return;
        }
        let at = self.cursor_pos - 1;
        let updated = splice(&self.input, at, 1, "");
        proof {
            reveal_strlit("");
            assert(updated@ =~= self.input@.remove(at as int));
        }
        self.input = updated;
        self.cursor_pos = at;
    }

    /// Deletes the character after the cursor; no-op at the end.
    pub fn delete_forward(&mut self)
        requires
            old(self).wf(),
        ensures
            final(self).wf(),
            old(self).cursor_pos == old(self).input@.len() ==> *final(self) == *old(self),
            old(self).cursor_pos < old(self).input@.len() ==> {
                &&& final(self).input@ == old(self).input@.remove(old(self).cursor_pos as int)
                &&& final(self).cursor_pos == old(self).cursor_pos
            },
    {
        let len = self.input.as_str().unicode_len();
        if self.cursor_pos >= len {
            return;
        }
        let at = self.cursor_pos;
        let updated = splice(&self.input, at, 1, "");
        proof {
            reveal_strlit("");
            assert(updated@ =~= self.input@.remove(at as int));
        }
        self.input = updated;
    }

    /// Moves the cursor one character left; no-op at the start.
    pub fn move_left(&mut self)
        requires
            old(self).wf(),
        ensures
            final(self).wf(),
            final(self).input == old(self).input,
            final(self).cursor_pos == if old(self).cursor_pos > 0 {
                old(self).cursor_pos - 1
            } else {
                0
            },
    {
        if self.cursor_pos > 0 {
            self.cursor_pos = self.cursor_pos - 1;
        }
    }

    /// Moves the cursor one character right; no-op at the end.
    pub fn move_right(&mut self)
        requires
            old(self).wf(),
        ensures
            final(self).wf(),
            final(self).input == old(self).input,
            final(self).cursor_pos == if old(self).cursor_pos < old(self).input@.len() {
                old(self).cursor_pos + 1
            } else {
                old(self).cursor_pos as int
            },
    {
        let len = self.input.as_str().unicode_len();
        if self.cursor_pos < len {
            self.cursor_pos = self.cursor_pos + 1;
        }
    }
}


/// One editing step on a line input.
#[derive(Debug, Clone, Copy, PartialEq, Eq, Structural)]
pub enum LineEdit {
    /// Insert a character at the cursor.
    InsertChar(char),
    /// Delete the character before the cursor.
    DeleteBack,
    /// Delete the character after the cursor.
    DeleteForward,
    /// Move the cursor one character left.
    Left,
    /// Move the cursor one character right.
    Right,
}

/// Whether `n` is `t` after the edit `e`. An insertion that would make the
/// text longer than `usize::MAX` characters leaves it unchanged.
pub open spec fn line_edited(t: LineInput, n: LineInput, e: LineEdit) -> bool {
    let c = t.cursor_pos as int;
    let len = t.input@.len() as int;
    match e {
        LineEdit::InsertChar(ch) => if len < usize::MAX {
            &&& n.input@ == t.input@.subrange(0, c) + seq![ch] + t.input@.subrange(c, len)
            &&& n.cursor_pos == c + 1
        } else {
            n == t
        },
        LineEdit::DeleteBack => if c > 0 {
            &&& n.input@ == t.input@.remove(c - 1)
            &&& n.cursor_pos == c - 1
        } else {
            n == t
        },
        LineEdit::DeleteForward => if c < len {
            &&& n.input@ == t.input@.remove(c)
            &&& n.cursor_pos == c
        } else {
            n == t
        },
        LineEdit::Left => {
            &&& n.input == t.input
            &&& n.cursor_pos == if c > 0 { c - 1 } else { 0 }
        },
        LineEdit::Right => {
            &&& n.input == t.input
            &&& n.cursor_pos == if c < len { c + 1 } else { c }
        },
    }
}

/// Whether `n` is `t` with `s` pasted at the cursor. A paste that would make
/// the text longer than `usize::MAX` characters leaves it unchanged.
pub open spec fn line_pasted(t: LineInput, n: LineInput, s: Seq<char>) -> bool {
    let c = t.cursor_pos as int;
    let len = t.input@.len() as int;
    if len + s.len() <= usize::MAX {
        &&& n.input@ == t.input@.subrange(0, c) + s + t.input@.subrange(c, len)
        &&& n.cursor_pos == c + s.len()
    } else {
        n == t
    }
}

impl LineInput {
    /// Applies one editing step.
    pub fn apply(&mut self, e: LineEdit)
        requires
            old(self).wf(),
        ensures
            final(self).wf(),
            line_edited(*old(self), *final(self), e),
    {
        match e {
            LineEdit::InsertChar(ch) => {
                if self.input.as_str().unicode_len() < usize::MAX {
                    self.insert_char(ch);
                }
            },
            LineEdit::DeleteBack => self.delete_back(),
            LineEdit::DeleteForward => self.delete_forward(),
            LineEdit::Left => self.move_left(),
            LineEdit::Right => self.move_right(),
        }
    }

    /// Pastes `text` at the cursor.
    pub fn paste(&mut self, text: &str)
        requires
            old(self).wf(),
        ensures
            final(self).wf(),
            line_pasted(*old(self), *final(self), text@),
    {
        let len = self.input.as_str().unicode_len();
        let n = text.unicode_len();
        if n <= usize::MAX - len {
            self.insert_str(text);
        }
    }
}

} // verus!
