//! Places on the terminal screen.

use vstd::arithmetic::div_mod::lemma_mod_decreases;
use vstd::prelude::*;

verus! {

/// A rectangle of screen cells: its top-left cell, its width and its height.
#[derive(Clone, Copy, Debug, PartialEq, Eq, Structural)]
pub struct Rect {
    pub x: usize,
    pub y: usize,
    pub w: usize,
    pub h: usize,
}

/// One screen row of a rectangle: its leftmost cell and its width.
#[derive(Clone, Copy, Debug, PartialEq, Eq, Structural)]
pub struct Row {
    pub x: usize,
    pub y: usize,
    pub w: usize,
}

/// A piece of text and the screen row to draw it in, from the row's leftmost
/// cell on. Of a text longer than the row only what fits is to be drawn.
#[derive(Debug)]
pub struct Line {
    pub row: Row,
    pub text: String,
}

/// What a [`Line`] holds, its text as a sequence of characters.
pub struct LineView {
    pub row: Row,
    pub text: Seq<char>,
}

impl View for Line {
    type V = LineView;

    open spec fn view(&self) -> LineView {
        LineView { row: self.row, text: self.text@ }
    }
}

/// The offset `offset` wrapped to a row of `width` cells: the remainder of
/// the division, and 0 in a row without cells.
pub open spec fn wrapped(offset: int, width: int) -> int {
    if width > 0 {
        offset % width
    } else {
        0
    }
}

/// The start of the page of `size` entries that holds `index`: the largest
/// multiple of `size` that is not above `index`. Where pages have no
/// entries, it is `index` itself.
pub open spec fn page_start(index: int, size: int) -> int {
    index - wrapped(index, size)
}

impl Rect {
    /// Whether every cell of the rectangle, and the cell just right of and
    /// just below it, has coordinates that the screen can address: the
    /// terminal counts columns and rows in `i32`.
    pub open spec fn spec_on_screen(&self) -> bool {
        &&& self.x + self.w <= i32::MAX
        &&& self.y + self.h <= i32::MAX
    }

    #[verifier::when_used_as_spec(spec_on_screen)]
    pub fn on_screen(&self) -> (fits: bool)
        ensures
            fits == self.spec_on_screen(),
    {
        let limit: usize = 0x7fff_ffff;
        self.x <= limit && self.w <= limit - self.x && self.y <= limit && self.h <= limit - self.y
    }
}

/// `offset` wrapped to `width` cells.
pub fn wrap(offset: usize, width: usize) -> (r: usize)
    ensures
        r == wrapped(offset as int, width as int),
        width > 0 ==> r < width,
        r <= offset,
{
    if width > 0 {
        proof {
            lemma_mod_decreases(offset as nat, width as nat);
        }
        offset % width
    } else {
        0
    }
}

} // verus!
