//! An editable list of strings for a terminal: a list of rows that can be
//! walked, reordered and duplicated, and a one-line editor that opens on a
//! row to change its text.
//!
//! The library decides and computes; it neither reads the keyboard nor
//! draws. Its caller hands it each keystroke, and gets from `render` what is
//! to be drawn and where the terminal's cursor belongs.

pub mod edit_field;
pub mod geometry;
pub mod global;
pub mod item_list;
pub mod keys;
pub mod string_list;
pub mod text;
pub mod theorems;

pub use crate::edit_field::EditField;
pub use crate::geometry::{Line, Rect, Row};
pub use crate::global::Global;
pub use crate::item_list::{ItemList, ListFrame};
pub use crate::keys::{Command, KeyStroke};
pub use crate::string_list::{Frame, StringList, StringListState};
