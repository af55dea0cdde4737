//! The one-line editor: a text and a cursor in it.

use vstd::prelude::*;
use crate::geometry::{page_start, wrap, Line, LineView, Row};
use crate::keys::{
    curses_key_backspace, curses_key_dc, curses_key_left, curses_key_right, KeyStroke,
    KEY_BACKSPACE, KEY_DC, KEY_LEFT, KEY_RIGHT,
};
use crate::text::{slice, with_char_inserted, with_char_removed};

verus! {

/// A line of text under edit, and the position of the cursor in it, counted
/// in characters from the start of the text.
#[derive(Debug)]
pub struct EditField {
    pub buffer: String,
    pub cursor_x: usize,
}

/// What an [`EditField`] holds: the characters of its text and the position
/// of its cursor.
pub struct EditFieldView {
    pub buffer: Seq<char>,
    pub cursor_x: nat,
}

impl View for EditField {
    type V = EditFieldView;

    open spec fn view(&self) -> EditFieldView {
        EditFieldView { buffer: self.buffer@, cursor_x: self.cursor_x as nat }
    }
}

impl EditFieldView {
    /// The cursor is in the text or just behind its last character.
    pub open spec fn wf(self) -> bool {
        self.cursor_x <= self.buffer.len()
    }

    /// An empty text with the cursor at its start.
    pub open spec fn empty() -> EditFieldView {
        EditFieldView { buffer: Seq::empty(), cursor_x: 0 }
    }

    /// The text `text` with the cursor behind its last character.
    pub open spec fn at_end_of(text: Seq<char>) -> EditFieldView {
        EditFieldView { buffer: text, cursor_x: text.len() }
    }

    /// Where the editing keys act: at the cursor, and at the end of the text
    /// where the cursor lies beyond it.
    pub open spec fn position(self) -> nat {
        if self.cursor_x <= self.buffer.len() {
            self.cursor_x
        } else {
            self.buffer.len()
        }
    }

    /// `ch` is put in at the cursor, and the cursor moves behind it.
    pub open spec fn insert_char(self, ch: char) -> EditFieldView {
        EditFieldView {
            buffer: self.buffer.insert(self.position() as int, ch),
            cursor_x: self.position() + 1,
        }
    }

    /// The cursor moves one character left, unless it is at the start.
    pub open spec fn left(self) -> EditFieldView {
        EditFieldView {
            buffer: self.buffer,
            cursor_x: if self.position() > 0 {
                (self.position() - 1) as nat
            } else {
                0
            },
        }
    }

    /// The cursor moves one character right, unless it is at the end.
    pub open spec fn right(self) -> EditFieldView {
        EditFieldView {
            buffer: self.buffer,
            cursor_x: if self.position() < self.buffer.len() {
                self.position() + 1
            } else {
                self.buffer.len()
            },
        }
    }

    /// The character left of the cursor goes, and the cursor moves onto its
    /// place; at the start of the text nothing goes.
    pub open spec fn backspace(self) -> EditFieldView {
        if self.position() > 0 {
            EditFieldView {
                buffer: self.buffer.remove(self.position() - 1),
                cursor_x: (self.position() - 1) as nat,
            }
        } else {
            EditFieldView { buffer: self.buffer, cursor_x: 0 }
        }
    }

    /// The character under the cursor goes; at the end of the text nothing
    /// goes.
    pub open spec fn delete(self) -> EditFieldView {
        if self.position() < self.buffer.len() {
            EditFieldView {
                buffer: self.buffer.remove(self.position() as int),
                cursor_x: self.position(),
            }
        } else {
            EditFieldView { buffer: self.buffer, cursor_x: self.buffer.len() }
        }
    }

    /// The editor after the key `key`: a printable character is put in, the
    /// left and right arrows move the cursor, backspace and delete take a
    /// character out, and any other key changes nothing. Alt plays no part.
    pub open spec fn handle_key(self, key: KeyStroke) -> EditFieldView {
        if key.character() is Some {
            self.insert_char(key.character()->0)
        } else if key.key == KEY_LEFT {
            self.left()
        } else if key.key == KEY_RIGHT {
            self.right()
        } else if key.key == KEY_BACKSPACE {
            self.backspace()
        } else if key.key == KEY_DC {
            self.delete()
        } else {
            self
        }
    }

    /// The first position of the text that shows in a row of `width` cells:
    /// the text is cut into pages of `width` characters, and the page that
    /// holds the cursor shows.
    pub open spec fn window_start(self, width: nat) -> nat {
        let start = page_start(self.cursor_x as int, width as int);
        if start <= self.buffer.len() {
            start as nat
        } else {
            self.buffer.len()
        }
    }

    /// The position behind the last one that shows in a row of `width`
    /// cells.
    pub open spec fn window_end(self, width: nat) -> nat {
        if self.window_start(width) + width <= self.buffer.len() {
            self.window_start(width) + width
        } else {
            self.buffer.len()
        }
    }

    /// What the editor draws in the row `row`: the page of its text that
    /// holds the cursor.
    pub open spec fn line(self, row: Row) -> LineView {
        LineView {
            row,
            text: self.buffer.subrange(
                self.window_start(row.w as nat) as int,
                self.window_end(row.w as nat) as int,
            ),
        }
    }
}

impl EditField {
    pub fn new() -> (field: EditField)
        ensures
            field@ == EditFieldView::empty(),
            field@.wf(),
    {
        EditField { buffer: String::new(), cursor_x: 0 }
    }

    /// The position at which the editing keys act.
    fn position(&self) -> (r: usize)
        ensures
            r == self@.position(),
            r <= self.buffer@.len(),
    {
        let len = self.buffer.as_str().unicode_len();
        if self.cursor_x <= len {
            self.cursor_x
        } else {
            len
        }
    }

    pub fn insert_char(&mut self, ch: char)
        ensures
            final(self)@ == old(self)@.insert_char(ch),
            final(self)@.wf(),
    {
        let at = self.position();
        self.buffer = with_char_inserted(self.buffer.as_str(), at, ch);
        // Counting the longer text shows that the position behind the new
        // character fits the cursor.
        let len = self.buffer.as_str().unicode_len();
        self.cursor_x = if at < len { at + 1 } else { len };
    }

    pub fn left(&mut self)
        ensures
            final(self)@ == old(self)@.left(),
            final(self)@.wf(),
    {
        let at = self.position();
        self.cursor_x = if at > 0 { at - 1 } else { 0 };
    }

    pub fn right(&mut self)
        ensures
            final(self)@ == old(self)@.right(),
            final(self)@.wf(),
    {
        let at = self.position();
        let len = self.buffer.as_str().unicode_len();
        self.cursor_x = if at < len { at + 1 } else { len };
    }

    pub fn backspace(&mut self)
        ensures
            final(self)@ == old(self)@.backspace(),
            final(self)@.wf(),
    {
        let at = self.position();
        if at > 0 {
            self.buffer = with_char_removed(self.buffer.as_str(), at - 1);
            self.cursor_x = at - 1;
        } else {
            self.cursor_x = 0;
        }
    }

    pub fn delete(&mut self)
        ensures
            final(self)@ == old(self)@.delete(),
            final(self)@.wf(),
    {
        let at = self.position();
        let len = self.buffer.as_str().unicode_len();
        if at < len {
            self.buffer = with_char_removed(self.buffer.as_str(), at);
        }
        self.cursor_x = at;
    }

    /// Lets the editor act on a key.
    pub fn handle_key(&mut self, key_stroke: KeyStroke)
        ensures
            final(self)@ == old(self)@.handle_key(key_stroke),
            old(self)@.wf() ==> final(self)@.wf(),
    {
        match key_stroke.character() {
            Some(ch) => self.insert_char(ch),
            None => {
                if key_stroke.key == curses_key_left() {
                    self.left();
                } else if key_stroke.key == curses_key_right() {
                    self.right();
                } else if key_stroke.key == curses_key_backspace() {
                    self.backspace();
                } else if key_stroke.key == curses_key_dc() {
                    self.delete();
                }
            },
        }
    }

    /// The text to draw in the row `row` of the screen while the editor is
    /// open there.
    pub fn render(&self, row: Row) -> (line: Line)
        ensures
            line@ == self@.line(row),
    {
        let len = self.buffer.as_str().unicode_len();
        let page = self.cursor_x - wrap(self.cursor_x, row.w);
        let start = if page <= len { page } else { len };
        let end = if row.w <= len - start { start + row.w } else { len };
        Line { row, text: slice(self.buffer.as_str(), start, end) }
    }
}

} // verus!
