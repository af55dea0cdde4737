//! The state that all widgets of the program share.

use vstd::prelude::*;
use crate::keys::{KeyStroke, KEY_Q};

verus! {

/// The state shared by all widgets: whether the program was asked to end,
/// and where the terminal's cursor is and whether it shows.
#[derive(Clone, Copy, Debug, PartialEq, Eq, Structural)]
pub struct Global {
    /// Set once the user asked to leave the program.
    pub quit: bool,
    /// Screen column of the terminal's cursor.
    pub cursor_x: i32,
    /// Screen row of the terminal's cursor.
    pub cursor_y: i32,
    /// Whether the terminal's cursor shows.
    pub cursor_visible: bool,
}

impl Global {
    /// The state at the start of the program: running, cursor hidden in the
    /// top-left corner.
    pub open spec fn initial() -> Global {
        Global { quit: false, cursor_x: 0, cursor_y: 0, cursor_visible: false }
    }

    /// Whether the key is one of the program's own, which no widget gets to
    /// see: `q` without alt.
    pub open spec fn claims(key: KeyStroke) -> bool {
        key.key == KEY_Q && !key.alt
    }

    /// The state after the key `key`: `q` without alt asks the program to
    /// end, any other key changes nothing.
    pub open spec fn after_key(self, key: KeyStroke) -> Global {
        if Self::claims(key) {
            Global { quit: true, ..self }
        } else {
            self
        }
    }

    /// This state with the cursor shown or hidden.
    pub open spec fn with_cursor_visible(self, visible: bool) -> Global {
        Global { cursor_visible: visible, ..self }
    }

    /// This state with the cursor at column `x` of row `y`.
    pub open spec fn with_cursor_at(self, x: i32, y: i32) -> Global {
        Global { cursor_x: x, cursor_y: y, ..self }
    }

    pub fn new() -> (global: Global)
        ensures
            global == Global::initial(),
    {
        Global { quit: false, cursor_x: 0, cursor_y: 0, cursor_visible: false }
    }

    /// Offers the key to the program before any widget sees it, and tells
    /// whether the program took it.
    pub fn handle_key(&mut self, key_stroke: KeyStroke) -> (consumed: bool)
        ensures
            consumed == Global::claims(key_stroke),
            *final(self) == old(self).after_key(key_stroke),
    {
        if key_stroke.key == KEY_Q && !key_stroke.alt {
            self.quit = true;
            true
        } else {
            false
        }
    }
}

} // verus!
