//! Keystrokes, the key codes the widgets react to, and the commands that a
//! keystroke can stand for.
//!
//! A key code is the integer that the terminal reports for a key. Keys that
//! produce a character are reported by the code of that character; keys
//! without a character (arrows, function keys, delete) are reported by the
//! codes that the curses library assigns to them. The executable code takes
//! those codes from the curses binding, one small trusted function per key;
//! the constants below are what the contracts say of them.

use vstd::prelude::*;

verus! {

/// The lower-case letter `i`.
pub const KEY_I: i32 = 0x69;

/// The upper-case letter `I`.
pub const KEY_SHIFT_I: i32 = 0x49;

/// The lower-case letter `q`.
pub const KEY_Q: i32 = 0x71;

/// The return key (line feed).
pub const KEY_RETURN: i32 = 0x0a;

/// The escape key.
pub const KEY_ESCAPE: i32 = 0x1b;

/// The first printable character, the space.
pub const KEY_FIRST_PRINTABLE: i32 = 0x20;

/// The last printable character, the tilde.
pub const KEY_LAST_PRINTABLE: i32 = 0x7e;

/// The curses code of the down arrow.
pub const KEY_DOWN: i32 = 0x102;

/// The curses code of the up arrow.
pub const KEY_UP: i32 = 0x103;

/// The curses code of the left arrow.
pub const KEY_LEFT: i32 = 0x104;

/// The curses code of the right arrow.
pub const KEY_RIGHT: i32 = 0x105;

/// The curses code of the backspace key.
pub const KEY_BACKSPACE: i32 = 0x107;

/// The curses code of the F2 key.
pub const KEY_F2: i32 = 0x10a;

/// The curses code of the delete key.
pub const KEY_DC: i32 = 0x14a;

/// The code of the down arrow as curses has it, read from `ncurses::KEY_DOWN`.
/// Taken on trust: that the constant is `0x102`, as the binding's source
/// defines it.
#[verifier::external_body]
pub(crate) fn curses_key_down() -> (code: i32)
    ensures
        code == KEY_DOWN,
{
    ncurses::KEY_DOWN
}

/// The code of the up arrow as curses has it, read from `ncurses::KEY_UP`.
/// Taken on trust: that the constant is `0x103`, as the binding's source
/// defines it.
#[verifier::external_body]
pub(crate) fn curses_key_up() -> (code: i32)
    ensures
        code == KEY_UP,
{
    ncurses::KEY_UP
}

/// The code of the left arrow as curses has it, read from `ncurses::KEY_LEFT`.
/// Taken on trust: that the constant is `0x104`, as the binding's source
/// defines it.
#[verifier::external_body]
pub(crate) fn curses_key_left() -> (code: i32)
    ensures
        code == KEY_LEFT,
{
    ncurses::KEY_LEFT
}

/// The code of the right arrow as curses has it, read from `ncurses::KEY_RIGHT`.
/// Taken on trust: that the constant is `0x105`, as the binding's source
/// defines it.
#[verifier::external_body]
pub(crate) fn curses_key_right() -> (code: i32)
    ensures
        code == KEY_RIGHT,
{
    ncurses::KEY_RIGHT
}

/// The code of the backspace key as curses has it, read from `ncurses::KEY_BACKSPACE`.
/// Taken on trust: that the constant is `0x107`, as the binding's source
/// defines it.
#[verifier::external_body]
pub(crate) fn curses_key_backspace() -> (code: i32)
    ensures
        code == KEY_BACKSPACE,
{
    ncurses::KEY_BACKSPACE
}

/// The code of the F2 key as curses has it, read from `ncurses::KEY_F2`.
/// Taken on trust: that the constant is `0x10a`, as the binding's source
/// defines it.
#[verifier::external_body]
pub(crate) fn curses_key_f2() -> (code: i32)
    ensures
        code == KEY_F2,
{
    ncurses::KEY_F2
}

/// The code of the delete key as curses has it, read from `ncurses::KEY_DC`.
/// Taken on trust: that the constant is `0x14a`, as the binding's source
/// defines it.
#[verifier::external_body]
pub(crate) fn curses_key_dc() -> (code: i32)
    ensures
        code == KEY_DC,
{
    ncurses::KEY_DC
}

/// A keystroke: the code of the key, and whether alt was held with it.
#[derive(Clone, Copy, Debug, PartialEq, Eq, Structural)]
pub struct KeyStroke {
    pub key: i32,
    pub alt: bool,
}

/// What a keystroke can ask of the string list.
#[derive(Clone, Copy, Debug, PartialEq, Eq, Structural)]
pub enum Command {
    /// Copy the current row and put the copy below it.
    DuplicateAfter,
    /// Copy the current row and put the copy above it.
    DuplicateBefore,
    /// Open a new, empty row below the current one and edit it.
    InsertAfter,
    /// Open a new, empty row above the current one and edit it.
    InsertBefore,
    /// Edit the text of the current row.
    StartEditing,
    /// End the edit and keep the text.
    AcceptEditing,
    /// End the edit and drop the text.
    CancelEditing,
}

impl KeyStroke {
    /// The command that this keystroke stands for while the list is
    /// navigated: `i` inserts below and `I` above; with alt they duplicate
    /// instead; F2, with or without alt, starts an edit.
    pub open spec fn spec_navigate_command(&self) -> Option<Command> {
        if self.key == KEY_I {
            Some(if self.alt { Command::DuplicateAfter } else { Command::InsertAfter })
        } else if self.key == KEY_SHIFT_I {
            Some(if self.alt { Command::DuplicateBefore } else { Command::InsertBefore })
        } else if self.key == KEY_F2 {
            Some(Command::StartEditing)
        } else {
            None
        }
    }

    /// The command that this keystroke stands for while a row is edited:
    /// return accepts and escape cancels, with or without alt.
    pub open spec fn spec_editing_command(&self) -> Option<Command> {
        if self.key == KEY_RETURN {
            Some(Command::AcceptEditing)
        } else if self.key == KEY_ESCAPE {
            Some(Command::CancelEditing)
        } else {
            None
        }
    }

    /// The keystroke that the terminal sends as the code `first` and, where
    /// one follows at once, the code `next`: an escape with a code right
    /// behind it is the key of that code with alt held, and anything else is
    /// the key of the first code without alt.
    pub open spec fn spec_from_codes(first: i32, next: Option<i32>) -> KeyStroke {
        match next {
            Some(key) if first == KEY_ESCAPE => KeyStroke { key, alt: true },
            _ => KeyStroke { key: first, alt: false },
        }
    }

    /// The character that the key types: the key's own character where it
    /// is a printable one, with or without alt, and none for any other key.
    pub open spec fn spec_character(&self) -> Option<char> {
        if KEY_FIRST_PRINTABLE <= self.key <= KEY_LAST_PRINTABLE {
            Some(self.key as u8 as char)
        } else {
            None
        }
    }

    #[verifier::when_used_as_spec(spec_from_codes)]
    pub fn from_codes(first: i32, next: Option<i32>) -> (key_stroke: KeyStroke)
        ensures
            key_stroke == KeyStroke::spec_from_codes(first, next),
    {
        match next {
            Some(key) if first == KEY_ESCAPE => KeyStroke { key, alt: true },
            _ => KeyStroke { key: first, alt: false },
        }
    }

    #[verifier::when_used_as_spec(spec_navigate_command)]
    pub fn navigate_command(&self) -> (command: Option<Command>)
        ensures
            command == self.spec_navigate_command(),
    {
        if self.key == KEY_I {
            Some(if self.alt { Command::DuplicateAfter } else { Command::InsertAfter })
        } else if self.key == KEY_SHIFT_I {
            Some(if self.alt { Command::DuplicateBefore } else { Command::InsertBefore })
        } else if self.key == curses_key_f2() {
            Some(Command::StartEditing)
        } else {
            None
        }
    }

    #[verifier::when_used_as_spec(spec_editing_command)]
    pub fn editing_command(&self) -> (command: Option<Command>)
        ensures
            command == self.spec_editing_command(),
    {
        if self.key == KEY_RETURN {
            Some(Command::AcceptEditing)
        } else if self.key == KEY_ESCAPE {
            Some(Command::CancelEditing)
        } else {
            None
        }
    }

    #[verifier::when_used_as_spec(spec_character)]
    pub fn character(&self) -> (ch: Option<char>)
        ensures
            ch == self.spec_character(),
    {
        if KEY_FIRST_PRINTABLE <= self.key && self.key <= KEY_LAST_PRINTABLE {
            Some(self.key as u8 as char)
        } else {
            None
        }
    }
}

} // verus!
