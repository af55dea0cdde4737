//! The string list: a list of rows and a one-line editor behind one key
//! handler. The widget is either navigated or has its editor open on the
//! row under the cursor; while the editor is open the terminal's cursor
//! shows, and it follows the editor's cursor on the screen.

use vstd::prelude::*;
use crate::edit_field::{EditField, EditFieldView};
use crate::geometry::{wrap, wrapped, Line, LineView, Rect};
use crate::global::Global;
use crate::item_list::{ItemList, ItemListView, ListFrame, ListFrameView};
use crate::keys::{Command, KeyStroke};

verus! {

/// What the string list is doing.
#[derive(Clone, Copy, Debug, PartialEq, Eq, Structural)]
pub enum StringListState {
    /// The keys walk and change the list.
    Navigate,
    /// The keys go to the editor, which is open on the row under the cursor.
    Editing {
        /// Whether the row was made for this edit, so that cancelling the
        /// edit has to take it out again.
        new: bool,
        /// The row the cursor was on when the edit began.
        prev_cursor_y: usize,
    },
}

/// What a [`StringListState`] holds, the row as a natural number.
pub enum StringListStateView {
    Navigate,
    Editing { new: bool, prev_cursor_y: nat },
}

impl View for StringListState {
    type V = StringListStateView;

    open spec fn view(&self) -> StringListStateView {
        match *self {
            StringListState::Navigate => StringListStateView::Navigate,
            StringListState::Editing { new, prev_cursor_y } => StringListStateView::Editing {
                new,
                prev_cursor_y: prev_cursor_y as nat,
            },
        }
    }
}

/// An editable list of strings.
#[derive(Debug)]
pub struct StringList {
    pub state: StringListState,
    pub list: ItemList,
    pub edit_field: EditField,
}

/// What a [`StringList`] holds.
pub struct StringListView {
    pub state: StringListStateView,
    pub list: ItemListView,
    pub edit_field: EditFieldView,
}

impl View for StringList {
    type V = StringListView;

    open spec fn view(&self) -> StringListView {
        StringListView { state: self.state@, list: self.list@, edit_field: self.edit_field@ }
    }
}

/// What the string list draws: its rows, and over the row under the cursor
/// the editor's text while the editor is open.
#[derive(Debug)]
pub struct Frame {
    pub list: ListFrame,
    pub editor: Option<Line>,
}

/// What a [`Frame`] holds.
pub struct FrameView {
    pub list: ListFrameView,
    pub editor: Option<LineView>,
}

impl View for Frame {
    type V = FrameView;

    open spec fn view(&self) -> FrameView {
        FrameView {
            list: self.list@,
            editor: match self.editor {
                Some(line) => Some(line@),
                None => None,
            },
        }
    }
}

impl StringListView {
    /// A list without rows that is navigated.
    pub open spec fn initial() -> StringListView {
        StringListView {
            state: StringListStateView::Navigate,
            list: ItemListView::empty(),
            edit_field: EditFieldView::empty(),
        }
    }

    /// Whether the editor is open.
    pub open spec fn is_editing(self) -> bool {
        self.state is Editing
    }

    /// The list and the editor are well formed. While the editor is open,
    /// the cursor is on a row; and where that row was made for the edit,
    /// the row to go back to is a row of the list without it.
    pub open spec fn wf(self) -> bool {
        &&& self.list.wf()
        &&& self.edit_field.wf()
        &&& self.state matches StringListStateView::Editing { new, prev_cursor_y } ==> {
            &&& self.list.has_current()
            &&& new ==> prev_cursor_y == 0 || prev_cursor_y + 1 < self.list.items.len()
        }
    }

    /// Navigated, the list gets a copy of the current row below it. With
    /// the editor open nothing changes.
    pub open spec fn duplicate_after(self) -> StringListView {
        match self.state {
            StringListStateView::Navigate => StringListView {
                list: self.list.duplicate_after(),
                ..self
            },
            StringListStateView::Editing { .. } => self,
        }
    }

    /// Navigated, the list gets a copy of the current row above it. With
    /// the editor open nothing changes.
    pub open spec fn duplicate_before(self) -> StringListView {
        match self.state {
            StringListStateView::Navigate => StringListView {
                list: self.list.duplicate_before(),
                ..self
            },
            StringListStateView::Editing { .. } => self,
        }
    }

    /// The edit of a new row, `list` being this widget's list with that row
    /// in it and the cursor on it: the editor is empty, the terminal's
    /// cursor shows, and the row to go back to is the one this widget's
    /// cursor is on.
    pub open spec fn editing_new_row(self, list: ItemListView, global: Global) -> (
        StringListView,
        Global,
    ) {
        (
            StringListView {
                state: StringListStateView::Editing {
                    new: true,
                    prev_cursor_y: self.list.cursor_y,
                },
                list,
                edit_field: EditFieldView::empty(),
            },
            global.with_cursor_visible(true),
        )
    }

    /// Navigated, the list gets an empty row below the current one, and the
    /// editor opens on it. With the editor open nothing changes.
    pub open spec fn insert_after(self, global: Global) -> (StringListView, Global) {
        match self.state {
            StringListStateView::Navigate => self.editing_new_row(
                self.list.insert_after_current(Seq::empty()),
                global,
            ),
            StringListStateView::Editing { .. } => (self, global),
        }
    }

    /// Navigated, the list gets an empty row above the current one, and the
    /// editor opens on it. With the editor open nothing changes.
    pub open spec fn insert_before(self, global: Global) -> (StringListView, Global) {
        match self.state {
            StringListStateView::Navigate => self.editing_new_row(
                self.list.insert_before_current(Seq::empty()),
                global,
            ),
            StringListStateView::Editing { .. } => (self, global),
        }
    }

    /// Navigated and with a row under the cursor, the editor opens on that
    /// row: it holds the row's text, its cursor is behind the last
    /// character, and the terminal's cursor shows. With the editor open, or
    /// without a row under the cursor, nothing changes.
    pub open spec fn start_editing(self, global: Global) -> (StringListView, Global) {
        match (self.state, self.list.current_item()) {
            (StringListStateView::Navigate, Some(item)) => (
                StringListView {
                    state: StringListStateView::Editing {
                        new: false,
                        prev_cursor_y: self.list.cursor_y,
                    },
                    list: self.list,
                    edit_field: EditFieldView::at_end_of(item),
                },
                global.with_cursor_visible(true),
            ),
            _ => (self, global),
        }
    }

    /// With the editor open, the row under the cursor gets the editor's
    /// text, the list is navigated again, and the terminal's cursor hides.
    /// Navigated, nothing changes.
    pub open spec fn accept_editing(self, global: Global) -> (StringListView, Global) {
        match self.state {
            StringListStateView::Editing { .. } => (
                StringListView {
                    state: StringListStateView::Navigate,
                    list: self.list.set_current_item(self.edit_field.buffer),
                    edit_field: self.edit_field,
                },
                global.with_cursor_visible(false),
            ),
            StringListStateView::Navigate => (self, global),
        }
    }

    /// With the editor open, the editor's text is dropped, the list is
    /// navigated again, and the terminal's cursor hides. A row that was
    /// made for the edit is taken out, and the list's cursor goes back to
    /// where it was before the edit. Navigated, nothing changes.
    pub open spec fn cancel_editing(self, global: Global) -> (StringListView, Global) {
        match self.state {
            StringListStateView::Editing { new, prev_cursor_y } => (
                StringListView {
                    state: StringListStateView::Navigate,
                    list: if new {
                        self.list.delete_current().with_cursor(prev_cursor_y)
                    } else {
                        self.list
                    },
                    edit_field: self.edit_field,
                },
                global.with_cursor_visible(false),
            ),
            StringListStateView::Navigate => (self, global),
        }
    }

    /// The widget and the shared state after the command `command`.
    pub open spec fn execute(self, command: Command, global: Global) -> (StringListView, Global) {
        match command {
            Command::DuplicateAfter => (self.duplicate_after(), global),
            Command::DuplicateBefore => (self.duplicate_before(), global),
            Command::InsertAfter => self.insert_after(global),
            Command::InsertBefore => self.insert_before(global),
            Command::StartEditing => self.start_editing(global),
            Command::AcceptEditing => self.accept_editing(global),
            Command::CancelEditing => self.cancel_editing(global),
        }
    }

    /// The widget and the shared state after the key `key`.
    ///
    /// Navigated, the key is first the program's: a key that the program
    /// claims changes the shared state only. Any other key is next one of
    /// the widget's commands, and last the list's. With the editor open, the
    /// key is first the command that ends the edit, and else the editor's.
    pub open spec fn handle_key(self, key: KeyStroke, global: Global) -> (StringListView, Global) {
        match self.state {
            StringListStateView::Navigate => {
                if Global::claims(key) {
                    (self, global.after_key(key))
                } else {
                    match key.navigate_command() {
                        Some(command) => self.execute(command, global),
                        None => (StringListView { list: self.list.handle_key(key), ..self }, global),
                    }
                }
            },
            StringListStateView::Editing { .. } => {
                match key.editing_command() {
                    Some(command) => self.execute(command, global),
                    None => (
                        StringListView { edit_field: self.edit_field.handle_key(key), ..self },
                        global,
                    ),
                }
            },
        }
    }

    /// The widget and the shared state after the keys `keys`, one after the
    /// other.
    pub open spec fn handle_keys(self, keys: Seq<KeyStroke>, global: Global) -> (
        StringListView,
        Global,
    )
        decreases keys.len(),
    {
        if keys.len() == 0 {
            (self, global)
        } else {
            let (widget, global) = self.handle_keys(keys.drop_last(), global);
            widget.handle_key(keys.last(), global)
        }
    }

    /// The screen column of the editor's cursor while the editor is open on
    /// a row of `rect`: the editor's cursor position, wrapped to the width
    /// of `rect`, right of the left edge of `rect`.
    pub open spec fn cursor_column(self, rect: Rect) -> int {
        rect.x + wrapped(self.edit_field.cursor_x as int, rect.w as int)
    }

    /// The screen row of the editor's cursor while the editor is open on a
    /// row of `rect`: the screen row of the list's current row, which is the
    /// index of that row, wrapped to the height of `rect`, below the top
    /// edge of `rect`.
    pub open spec fn cursor_row(self, rect: Rect) -> int {
        rect.y + wrapped(self.list.cursor_y as int, rect.h as int)
    }

    /// The shared state after the widget was drawn in `rect`: with the
    /// editor open, the terminal's cursor is where the editor's cursor
    /// shows; navigated, nothing changes. Whether the cursor shows never
    /// changes.
    pub open spec fn render(self, rect: Rect, global: Global) -> Global {
        if self.is_editing() {
            global.with_cursor_at(self.cursor_column(rect) as i32, self.cursor_row(rect) as i32)
        } else {
            global
        }
    }

    /// What the widget draws in `rect`: the list's rows, always, and with
    /// the editor open the editor's text in the screen row of the current
    /// row.
    pub open spec fn frame(self, rect: Rect, focused: bool) -> FrameView {
        FrameView {
            list: self.list.frame(rect, focused),
            editor: if self.is_editing() {
                Some(self.edit_field.line(self.list.current_row(rect)))
            } else {
                None
            },
        }
    }
}

impl StringList {
    pub fn new() -> (widget: StringList)
        ensures
            widget@ == StringListView::initial(),
            widget@.wf(),
    {
        StringList {
            state: StringListState::Navigate,
            list: ItemList::new(),
            edit_field: EditField::new(),
        }
    }

    /// The text of the row under the cursor, if there is one. While the
    /// editor is open this is the row's text from before the edit.
    pub fn current_item(&self) -> (item: Option<&str>)
        ensures
            match item {
                Some(text) => self@.list.current_item() == Some(text@),
                None => self@.list.current_item() is None,
            },
    {
        self.list.current_item()
    }

    /// Says what to draw in `rect`, and moves the terminal's cursor to the
    /// editor's cursor while the editor is open.
    pub fn render(&self, rect: Rect, focused: bool, global: &mut Global) -> (frame: Frame)
        requires
            rect.on_screen(),
        ensures
            frame@ == self@.frame(rect, focused),
            *final(global) == self@.render(rect, *old(global)),
            final(global).cursor_visible == old(global).cursor_visible,
            final(global).quit == old(global).quit,
            self@.is_editing() ==> {
                &&& final(global).cursor_x == self@.cursor_column(rect)
                &&& final(global).cursor_y == self@.cursor_row(rect)
            },
            !self@.is_editing() ==> *final(global) == *old(global),
            frame.editor is Some <==> self@.is_editing(),
            frame.editor matches Some(line) ==> {
                &&& line.row.x == rect.x
                &&& line.row.y == self@.cursor_row(rect)
                &&& line.row.w == rect.w
            },
    {
        let list = self.list.render(rect, focused);
        let editor = match self.state {
            StringListState::Editing { .. } => {
                let row = self.list.current_row(rect);
                let line = self.edit_field.render(row);
                global.cursor_y = row.y as i32;
                global.cursor_x = (row.x + wrap(self.edit_field.cursor_x, row.w)) as i32;
                Some(line)
            },
            StringListState::Navigate => None,
        };
        Frame { list, editor }
    }

    pub fn duplicate_after(&mut self)
        ensures
            final(self)@ == old(self)@.duplicate_after(),
            old(self)@.is_editing() ==> final(self)@ == old(self)@,
            old(self)@.wf() ==> final(self)@.wf(),
    {
        if let StringListState::Navigate = self.state {
            self.list.duplicate_after();
        }
    }

    pub fn duplicate_before(&mut self)
        ensures
            final(self)@ == old(self)@.duplicate_before(),
            old(self)@.is_editing() ==> final(self)@ == old(self)@,
            old(self)@.wf() ==> final(self)@.wf(),
    {
        if let StringListState::Navigate = self.state {
            self.list.duplicate_before();
        }
    }

    pub fn insert_after(&mut self, global: &mut Global)
        ensures
            (final(self)@, *final(global)) == old(self)@.insert_after(*old(global)),
            old(self)@.is_editing() ==> final(self)@ == old(self)@ && *final(global) == *old(global),
            old(self)@.wf() ==> final(self)@.wf(),
    {
        if let StringListState::Navigate = self.state {
            self.state = StringListState::Editing { new: true, prev_cursor_y: self.list.cursor_y };
            self.list.insert_after_current(String::new());
            self.edit_field.buffer = String::new();
            self.edit_field.cursor_x = 0;
            global.cursor_visible = true;
        }
    }

    pub fn insert_before(&mut self, global: &mut Global)
        ensures
            (final(self)@, *final(global)) == old(self)@.insert_before(*old(global)),
            old(self)@.is_editing() ==> final(self)@ == old(self)@ && *final(global) == *old(global),
            old(self)@.wf() ==> final(self)@.wf(),
    {
        if let StringListState::Navigate = self.state {
            self.state = StringListState::Editing { new: true, prev_cursor_y: self.list.cursor_y };
            self.list.insert_before_current(String::new());
            self.edit_field.buffer = String::new();
            self.edit_field.cursor_x = 0;
            global.cursor_visible = true;
        }
    }

    pub fn start_editing(&mut self, global: &mut Global)
        ensures
            (final(self)@, *final(global)) == old(self)@.start_editing(*old(global)),
            old(self)@.is_editing() || !old(self)@.list.has_current() ==> final(self)@ == old(self)@
                && *final(global) == *old(global),
            old(self)@.wf() ==> final(self)@.wf(),
    {
        if let StringListState::Navigate = self.state {
            if let Some(item) = self.list.current_item() {
                let cursor_x = item.unicode_len();
                let buffer = String::from_str(item);
                self.edit_field.cursor_x = cursor_x;
                self.edit_field.buffer = buffer;
                self.state = StringListState::Editing {
                    new: false,
                    prev_cursor_y: self.list.cursor_y,
                };
                global.cursor_visible = true;
            }
        }
    }

    pub fn accept_editing(&mut self, global: &mut Global)
        ensures
            (final(self)@, *final(global)) == old(self)@.accept_editing(*old(global)),
            !old(self)@.is_editing() ==> final(self)@ == old(self)@ && *final(global) == *old(global),
            old(self)@.wf() ==> final(self)@.wf(),
    {
        if let StringListState::Editing { .. } = self.state {
            self.state = StringListState::Navigate;
            self.list.set_current_item(self.edit_field.buffer.clone());
            global.cursor_visible = false;
        }
    }

    pub fn cancel_editing(&mut self, global: &mut Global)
        ensures
            (final(self)@, *final(global)) == old(self)@.cancel_editing(*old(global)),
            !old(self)@.is_editing() ==> final(self)@ == old(self)@ && *final(global) == *old(global),
            old(self)@.wf() ==> final(self)@.wf(),
    {
        if let StringListState::Editing { new, prev_cursor_y } = self.state {
            self.state = StringListState::Navigate;
            if new {
                self.list.delete_current();
                self.list.cursor_y = prev_cursor_y;
            }
            global.cursor_visible = false;
        }
    }

    /// Carries out a command.
    pub fn execute(&mut self, command: Command, global: &mut Global)
        ensures
            (final(self)@, *final(global)) == old(self)@.execute(command, *old(global)),
            old(self)@.wf() ==> final(self)@.wf(),
    {
        match command {
            Command::DuplicateAfter => self.duplicate_after(),
            Command::DuplicateBefore => self.duplicate_before(),
            Command::InsertAfter => self.insert_after(global),
            Command::InsertBefore => self.insert_before(global),
            Command::StartEditing => self.start_editing(global),
            Command::AcceptEditing => self.accept_editing(global),
            Command::CancelEditing => self.cancel_editing(global),
        }
    }

    /// Lets the widget act on a key. Navigated, the key is offered to the
    /// program first, then taken as a command of the widget, and last handed
    /// to the list. With the editor open, the key is taken as the command
    /// that ends the edit, and else handed to the editor.
    pub fn handle_key(&mut self, key_stroke: KeyStroke, global: &mut Global)
        ensures
            (final(self)@, *final(global)) == old(self)@.handle_key(key_stroke, *old(global)),
            old(global).cursor_visible == old(self)@.is_editing() ==> final(global).cursor_visible
                == final(self)@.is_editing(),
            old(self)@.wf() ==> final(self)@.wf(),
    {
        match self.state {
            StringListState::Navigate => {
                if !global.handle_key(key_stroke) {
                    match key_stroke.navigate_command() {
                        Some(command) => self.execute(command, global),
                        None => self.list.handle_key(key_stroke),
                    }
                }
            },
            StringListState::Editing { .. } => {
                match key_stroke.editing_command() {
                    Some(command) => self.execute(command, global),
                    None => self.edit_field.handle_key(key_stroke),
                }
            },
        }
    }

    /// Lets the widget act on the keys of `key_strokes`, one after the
    /// other.
    pub fn handle_keys(&mut self, key_strokes: &[KeyStroke], global: &mut Global)
        ensures
            (final(self)@, *final(global)) == old(self)@.handle_keys(key_strokes@, *old(global)),
            old(global).cursor_visible == old(self)@.is_editing() ==> final(global).cursor_visible
                == final(self)@.is_editing(),
            old(self)@.wf() ==> final(self)@.wf(),
    {
        let mut i: usize = 0;
        while i < key_strokes.len()
            invariant
                i <= key_strokes@.len(),
                (self@, *global) == old(self)@.handle_keys(key_strokes@.take(i as int), *old(global)),
                old(global).cursor_visible == old(self)@.is_editing() ==> global.cursor_visible
                    == self@.is_editing(),
                old(self)@.wf() ==> self@.wf(),
            decreases key_strokes@.len() - i,
        {
            assert(key_strokes@.take(i + 1).drop_last() =~= key_strokes@.take(i as int));
            self.handle_key(key_strokes[i], global);
            i += 1;
        }
        assert(key_strokes@.take(i as int) =~= key_strokes@);
    }
}

} // verus!
