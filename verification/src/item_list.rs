//! The list of rows: an ordered sequence of strings and a cursor on one of
//! them.

use vstd::prelude::*;
use crate::geometry::{page_start, wrap, wrapped, Line, LineView, Rect, Row};
use crate::keys::{curses_key_dc, curses_key_down, curses_key_up, KeyStroke, KEY_DC, KEY_DOWN, KEY_UP};

verus! {

/// An ordered list of strings, and the index of the row under the cursor.
#[derive(Debug)]
pub struct ItemList {
    pub items: Vec<String>,
    pub cursor_y: usize,
}

/// What an [`ItemList`] holds: the texts of its rows, in order, and the index
/// of the row under the cursor.
pub struct ItemListView {
    pub items: Seq<Seq<char>>,
    pub cursor_y: nat,
}

/// The texts of a sequence of strings.
pub open spec fn texts(items: Seq<String>) -> Seq<Seq<char>> {
    Seq::new(items.len(), |i: int| items[i]@)
}

impl View for ItemList {
    type V = ItemListView;

    open spec fn view(&self) -> ItemListView {
        ItemListView { items: texts(self.items@), cursor_y: self.cursor_y as nat }
    }
}

/// What the list draws: the rows of one page, top to bottom.
#[derive(Debug)]
pub struct ListFrame {
    /// The rows that show, each with its place on the screen.
    pub lines: Vec<Line>,
    /// The index in `lines` of the row under the cursor, where it shows.
    pub selected: Option<usize>,
    /// Whether the list has the keyboard.
    pub focused: bool,
}

/// What a [`ListFrame`] holds.
pub struct ListFrameView {
    pub lines: Seq<LineView>,
    pub selected: Option<nat>,
    pub focused: bool,
}

impl View for ListFrame {
    type V = ListFrameView;

    open spec fn view(&self) -> ListFrameView {
        ListFrameView {
            lines: Seq::new(self.lines@.len(), |i: int| self.lines@[i]@),
            selected: match self.selected {
                Some(i) => Some(i as nat),
                None => None,
            },
            focused: self.focused,
        }
    }
}

impl ItemListView {
    /// The cursor is on a row, or at 0 in a list without rows.
    pub open spec fn wf(self) -> bool {
        if self.items.len() == 0 {
            self.cursor_y == 0
        } else {
            self.cursor_y < self.items.len()
        }
    }

    /// The list without rows.
    pub open spec fn empty() -> ItemListView {
        ItemListView { items: Seq::empty(), cursor_y: 0 }
    }

    /// Whether the cursor is on a row.
    pub open spec fn has_current(self) -> bool {
        self.cursor_y < self.items.len()
    }

    /// The text of the row under the cursor.
    pub open spec fn current_item(self) -> Option<Seq<char>> {
        if self.has_current() {
            Some(self.items[self.cursor_y as int])
        } else {
            None
        }
    }

    /// The cursor moves one row up, unless it is on the first.
    pub open spec fn up(self) -> ItemListView {
        ItemListView {
            items: self.items,
            cursor_y: if self.cursor_y > 0 {
                (self.cursor_y - 1) as nat
            } else {
                0
            },
        }
    }

    /// The cursor moves one row down, unless it is on the last.
    pub open spec fn down(self) -> ItemListView {
        ItemListView {
            items: self.items,
            cursor_y: if self.cursor_y + 1 < self.items.len() {
                self.cursor_y + 1
            } else {
                self.cursor_y
            },
        }
    }

    /// The row under the cursor is taken out. The cursor stays where it is,
    /// on the row that followed; where none followed it moves to the new
    /// last row. Without a row under the cursor nothing changes.
    pub open spec fn delete_current(self) -> ItemListView {
        if self.has_current() {
            ItemListView {
                items: self.items.remove(self.cursor_y as int),
                cursor_y: if self.cursor_y + 1 < self.items.len() || self.cursor_y == 0 {
                    self.cursor_y
                } else {
                    (self.cursor_y - 1) as nat
                },
            }
        } else {
            self
        }
    }

    /// A new row with the text `item` is put in below the row under the
    /// cursor, and the cursor moves onto it. Without a row under the
    /// cursor the new row becomes the last.
    pub open spec fn insert_after_current(self, item: Seq<char>) -> ItemListView {
        let at = if self.has_current() {
            self.cursor_y + 1
        } else {
            self.items.len()
        };
        ItemListView { items: self.items.insert(at as int, item), cursor_y: at }
    }

    /// A new row with the text `item` is put in above the row under the
    /// cursor, and the cursor moves onto it. Without a row under the
    /// cursor the new row becomes the last.
    pub open spec fn insert_before_current(self, item: Seq<char>) -> ItemListView {
        let at = if self.has_current() {
            self.cursor_y
        } else {
            self.items.len()
        };
        ItemListView { items: self.items.insert(at as int, item), cursor_y: at }
    }

    /// A copy of the row under the cursor is put in below it, and the cursor
    /// moves onto the copy. Without a row under the cursor nothing changes.
    pub open spec fn duplicate_after(self) -> ItemListView {
        match self.current_item() {
            Some(item) => self.insert_after_current(item),
            None => self,
        }
    }

    /// A copy of the row under the cursor is put in above it, and the cursor
    /// moves onto the copy. Without a row under the cursor nothing changes.
    pub open spec fn duplicate_before(self) -> ItemListView {
        match self.current_item() {
            Some(item) => self.insert_before_current(item),
            None => self,
        }
    }

    /// The row under the cursor gets the text `item`. Without a row under
    /// the cursor nothing changes.
    pub open spec fn set_current_item(self, item: Seq<char>) -> ItemListView {
        if self.has_current() {
            ItemListView { items: self.items.update(self.cursor_y as int, item), ..self }
        } else {
            self
        }
    }

    /// This list with the cursor at `row`.
    pub open spec fn with_cursor(self, row: nat) -> ItemListView {
        ItemListView { cursor_y: row, ..self }
    }

    /// The list after the key `key`: the up and down arrows move the cursor,
    /// delete takes out the row under it, and any other key changes nothing.
    /// Alt plays no part.
    pub open spec fn handle_key(self, key: KeyStroke) -> ItemListView {
        if key.key == KEY_UP {
            self.up()
        } else if key.key == KEY_DOWN {
            self.down()
        } else if key.key == KEY_DC {
            self.delete_current()
        } else {
            self
        }
    }

    /// The screen row of `rect` in which the row under the cursor shows.
    /// The list is cut into pages of as many rows as `rect` is high, and
    /// the page that holds the cursor shows from the top of `rect` down.
    pub open spec fn current_row(self, rect: Rect) -> Row {
        Row {
            x: rect.x,
            y: (rect.y + wrapped(self.cursor_y as int, rect.h as int)) as usize,
            w: rect.w,
        }
    }

    /// The index of the first row that shows in `rect`.
    pub open spec fn first_shown(self, rect: Rect) -> nat {
        let start = page_start(self.cursor_y as int, rect.h as int);
        if start <= self.items.len() {
            start as nat
        } else {
            self.items.len()
        }
    }

    /// The number of rows that show in `rect`.
    pub open spec fn count_shown(self, rect: Rect) -> nat {
        if self.first_shown(rect) + rect.h <= self.items.len() {
            rect.h as nat
        } else {
            (self.items.len() - self.first_shown(rect)) as nat
        }
    }

    /// What the list draws in `rect`: the rows of the page that holds the
    /// cursor, one screen row each from the top of `rect` down, and which of
    /// them is under the cursor.
    pub open spec fn frame(self, rect: Rect, focused: bool) -> ListFrameView {
        ListFrameView {
            lines: Seq::new(
                self.count_shown(rect),
                |i: int|
                    LineView {
                        row: Row { x: rect.x, y: (rect.y + i) as usize, w: rect.w },
                        text: self.items[self.first_shown(rect) + i],
                    },
            ),
            selected: if self.has_current() && rect.h > 0 {
                Some(wrapped(self.cursor_y as int, rect.h as int) as nat)
            } else {
                None
            },
            focused,
        }
    }
}

impl ItemList {
    pub fn new() -> (list: ItemList)
        ensures
            list@ == ItemListView::empty(),
            list@.wf(),
    {
        let list = ItemList { items: Vec::new(), cursor_y: 0 };
        assert(list@.items =~= Seq::empty());
        list
    }

    /// The text of the row under the cursor, if there is one.
    pub fn current_item(&self) -> (item: Option<&str>)
        ensures
            match item {
                Some(text) => self@.current_item() == Some(text@),
                None => self@.current_item() is None,
            },
    {
        if self.cursor_y < self.items.len() {
            Some(self.items[self.cursor_y].as_str())
        } else {
            None
        }
    }

    pub fn up(&mut self)
        ensures
            final(self)@ == old(self)@.up(),
            old(self)@.wf() ==> final(self)@.wf(),
    {
        if self.cursor_y > 0 {
            self.cursor_y -= 1;
        }
    }

    pub fn down(&mut self)
        ensures
            final(self)@ == old(self)@.down(),
            old(self)@.wf() ==> final(self)@.wf(),
    {
        if self.cursor_y < self.items.len() && self.cursor_y + 1 < self.items.len() {
            self.cursor_y += 1;
        }
    }

    pub fn delete_current(&mut self)
        ensures
            final(self)@ == old(self)@.delete_current(),
            old(self)@.wf() ==> final(self)@.wf(),
    {
        if self.cursor_y < self.items.len() {
            self.items.remove(self.cursor_y);
            if self.cursor_y > 0 && self.cursor_y >= self.items.len() {
                self.cursor_y -= 1;
            }
            assert(self@.items =~= old(self)@.items.remove(old(self).cursor_y as int));
        }
    }

    pub fn insert_after_current(&mut self, item: String)
        ensures
            final(self)@ == old(self)@.insert_after_current(item@),
            old(self)@.wf() ==> final(self)@.wf(),
    {
        let at = if self.cursor_y < self.items.len() {
            self.cursor_y + 1
        } else {
            self.items.len()
        };
        self.items.insert(at, item);
        self.cursor_y = at;
        assert(self@.items =~= old(self)@.items.insert(at as int, item@));
    }

    pub fn insert_before_current(&mut self, item: String)
        ensures
            final(self)@ == old(self)@.insert_before_current(item@),
            old(self)@.wf() ==> final(self)@.wf(),
    {
        let at = if self.cursor_y < self.items.len() {
            self.cursor_y
        } else {
            self.items.len()
        };
        self.items.insert(at, item);
        self.cursor_y = at;
        assert(self@.items =~= old(self)@.items.insert(at as int, item@));
    }

    pub fn duplicate_after(&mut self)
        ensures
            final(self)@ == old(self)@.duplicate_after(),
            old(self)@.wf() ==> final(self)@.wf(),
    {
        if self.cursor_y < self.items.len() {
            let item = self.items[self.cursor_y].clone();
            self.insert_after_current(item);
        }
    }

    pub fn duplicate_before(&mut self)
        ensures
            final(self)@ == old(self)@.duplicate_before(),
            old(self)@.wf() ==> final(self)@.wf(),
    {
        if self.cursor_y < self.items.len() {
            let item = self.items[self.cursor_y].clone();
            self.insert_before_current(item);
        }
    }

    /// Gives the row under the cursor the text `item`.
    pub fn set_current_item(&mut self, item: String)
        ensures
            final(self)@ == old(self)@.set_current_item(item@),
            old(self)@.wf() ==> final(self)@.wf(),
    {
        if self.cursor_y < self.items.len() {
            self.items[self.cursor_y] = item;
            assert(self@.items =~= old(self)@.items.update(self.cursor_y as int, item@));
        }
    }

    /// Lets the list act on a key.
    pub fn handle_key(&mut self, key_stroke: KeyStroke)
        ensures
            final(self)@ == old(self)@.handle_key(key_stroke),
            old(self)@.wf() ==> final(self)@.wf(),
    {
        if key_stroke.key == curses_key_up() {
            self.up();
        } else if key_stroke.key == curses_key_down() {
            self.down();
        } else if key_stroke.key == curses_key_dc() {
            self.delete_current();
        }
    }

    /// The screen row of `rect` in which the row under the cursor shows.
    pub fn current_row(&self, rect: Rect) -> (row: Row)
        requires
            rect.on_screen(),
        ensures
            row == self@.current_row(rect),
            row.x == rect.x,
            row.y == rect.y + wrapped(self.cursor_y as int, rect.h as int),
            row.w == rect.w,
    {
        Row { x: rect.x, y: rect.y + wrap(self.cursor_y, rect.h), w: rect.w }
    }

    /// The rows to draw in `rect`, and which of them is under the cursor.
    pub fn render(&self, rect: Rect, focused: bool) -> (frame: ListFrame)
        requires
            rect.on_screen(),
        ensures
            frame@ == self@.frame(rect, focused),
            forall|i: int|
                0 <= i < frame.lines@.len() ==> (#[trigger] frame.lines@[i]).row.y == rect.y + i,
    {
        let len = self.items.len();
        let offset = wrap(self.cursor_y, rect.h);
        let page = self.cursor_y - offset;
        let first = if page <= len { page } else { len };
        let count = if rect.h <= len - first { rect.h } else { len - first };
        let mut lines: Vec<Line> = Vec::new();
        let mut i: usize = 0;
        while i < count
            invariant
                i <= count,
                first + count <= len,
                len == self.items@.len(),
                count <= rect.h,
                rect.on_screen(),
                lines@.len() == i,
                forall|k: int|
                    0 <= k < i ==> (#[trigger] lines@[k])@ == (LineView {
                        row: Row { x: rect.x, y: (rect.y + k) as usize, w: rect.w },
                        text: self.items@[first + k]@,
                    }),
            decreases count - i,
        {
            let text = self.items[first + i].clone();
            lines.push(Line { row: Row { x: rect.x, y: rect.y + i, w: rect.w }, text });
            i += 1;
        }
        let selected = if self.cursor_y < len && rect.h > 0 {
            Some(offset)
        } else {
            None
        };
        let frame = ListFrame { lines, selected, focused };
        assert(frame@.lines =~= self@.frame(rect, focused).lines);
        frame
    }
}

} // verus!
