//! What holds of the string list whatever keys it gets.

use vstd::prelude::*;
use crate::edit_field::EditFieldView;
use crate::geometry::Rect;
use crate::global::Global;
use crate::item_list::ItemListView;
use crate::keys::{Command, KeyStroke};
use crate::string_list::StringListView;

verus! {

/// A new list is well formed, and so is a new widget.
pub proof fn initial_is_wf()
    ensures
        ItemListView::empty().wf(),
        EditFieldView::empty().wf(),
        StringListView::initial().wf(),
        !StringListView::initial().is_editing(),
        !Global::initial().cursor_visible,
{
}

/// No key takes a well-formed list out of form.
pub proof fn list_key_preserves_wf(list: ItemListView, key: KeyStroke)
    requires
        list.wf(),
    ensures
        list.handle_key(key).wf(),
{
}

/// No key takes a well-formed editor out of form.
pub proof fn editor_key_preserves_wf(editor: EditFieldView, key: KeyStroke)
    requires
        editor.wf(),
    ensures
        editor.handle_key(key).wf(),
{
}

/// No command takes a well-formed widget out of form.
pub proof fn command_preserves_wf(widget: StringListView, command: Command, global: Global)
    requires
        widget.wf(),
    ensures
        widget.execute(command, global).0.wf(),
{
}

/// No key takes a well-formed widget out of form: the cursor of the list
/// stays on a row, the cursor of the editor stays in its text, and an open
/// editor always has a row to write to.
pub proof fn key_preserves_wf(widget: StringListView, key: KeyStroke, global: Global)
    requires
        widget.wf(),
    ensures
        widget.handle_key(key, global).0.wf(),
{
}

/// No sequence of keys takes a well-formed widget out of form.
pub proof fn keys_preserve_wf(widget: StringListView, keys: Seq<KeyStroke>, global: Global)
    requires
        widget.wf(),
    ensures
        widget.handle_keys(keys, global).0.wf(),
    decreases keys.len(),
{
    if keys.len() > 0 {
        keys_preserve_wf(widget, keys.drop_last(), global);
        let (before, shared) = widget.handle_keys(keys.drop_last(), global);
        key_preserves_wf(before, keys.last(), shared);
    }
}

/// Where the terminal's cursor shows exactly if the editor is open, it does
/// so after any key.
pub proof fn key_keeps_cursor_with_editor(widget: StringListView, key: KeyStroke, global: Global)
    requires
        global.cursor_visible <==> widget.is_editing(),
    ensures
        widget.handle_key(key, global).1.cursor_visible <==> widget.handle_key(
            key,
            global,
        ).0.is_editing(),
{
}

/// Where the terminal's cursor shows exactly if the editor is open, it does
/// so after any sequence of keys.
pub proof fn keys_keep_cursor_with_editor(
    widget: StringListView,
    keys: Seq<KeyStroke>,
    global: Global,
)
    requires
        global.cursor_visible <==> widget.is_editing(),
    ensures
        widget.handle_keys(keys, global).1.cursor_visible <==> widget.handle_keys(
            keys,
            global,
        ).0.is_editing(),
    decreases keys.len(),
{
    if keys.len() > 0 {
        keys_keep_cursor_with_editor(widget, keys.drop_last(), global);
        let (before, shared) = widget.handle_keys(keys.drop_last(), global);
        key_keeps_cursor_with_editor(before, keys.last(), shared);
    }
}

/// From the start of the program on, whatever keys come, the terminal's
/// cursor shows exactly while the editor is open.
pub proof fn cursor_shows_iff_editing(keys: Seq<KeyStroke>)
    ensures
        StringListView::initial().handle_keys(keys, Global::initial()).1.cursor_visible
            <==> StringListView::initial().handle_keys(keys, Global::initial()).0.is_editing(),
{
    keys_keep_cursor_with_editor(StringListView::initial(), keys, Global::initial());
}

/// Drawing the widget never shows or hides the terminal's cursor.
pub proof fn render_keeps_cursor_visibility(widget: StringListView, rect: Rect, global: Global)
    ensures
        widget.render(rect, global).cursor_visible == global.cursor_visible,
{
}

/// Drawing the widget twice in a row leaves the terminal's cursor where the
/// first drawing put it: the second changes nothing.
pub proof fn render_is_idempotent(widget: StringListView, rect: Rect, global: Global)
    ensures
        widget.render(rect, widget.render(rect, global)) == widget.render(rect, global),
        widget.render(rect, widget.render(rect, global)).cursor_x == widget.render(
            rect,
            global,
        ).cursor_x,
        widget.render(rect, widget.render(rect, global)).cursor_y == widget.render(
            rect,
            global,
        ).cursor_y,
{
}

/// Where the widget puts the terminal's cursor depends on the widget and
/// the rectangle alone, not on where the cursor was.
pub proof fn render_forgets_old_cursor(
    widget: StringListView,
    rect: Rect,
    one: Global,
    other: Global,
)
    requires
        widget.is_editing(),
    ensures
        widget.render(rect, one).cursor_x == widget.render(rect, other).cursor_x,
        widget.render(rect, one).cursor_y == widget.render(rect, other).cursor_y,
{
}

/// While the editor is open, a key that does not end the edit changes the
/// editor and nothing else.
pub proof fn editing_key_changes_editor_only(
    widget: StringListView,
    key: KeyStroke,
    global: Global,
)
    requires
        widget.is_editing(),
        key.editing_command() is None,
    ensures
        widget.handle_key(key, global).0.state == widget.state,
        widget.handle_key(key, global).0.list == widget.list,
        widget.handle_key(key, global).0.edit_field == widget.edit_field.handle_key(key),
        widget.handle_key(key, global).1 == global,
{
}

/// While the list is navigated, a key that the program claims changes
/// nothing in the widget.
pub proof fn claimed_key_passes_widget_by(widget: StringListView, key: KeyStroke, global: Global)
    requires
        !widget.is_editing(),
        Global::claims(key),
    ensures
        widget.handle_key(key, global).0 == widget,
        widget.handle_key(key, global).1 == global.after_key(key),
{
}

/// Cancelling the edit of a row that was made for it undoes the insertion:
/// whatever was typed meanwhile, the list has its rows and its cursor back.
pub proof fn cancel_undoes_insert(
    widget: StringListView,
    typed: EditFieldView,
    global: Global,
    later: Global,
)
    requires
        !widget.is_editing(),
    ensures
        (StringListView { edit_field: typed, ..widget.insert_after(global).0 }).cancel_editing(
            later,
        ).0.list == widget.list,
        (StringListView { edit_field: typed, ..widget.insert_before(global).0 }).cancel_editing(
            later,
        ).0.list == widget.list,
        !(StringListView { edit_field: typed, ..widget.insert_after(global).0 }).cancel_editing(
            later,
        ).0.is_editing(),
        !(StringListView { edit_field: typed, ..widget.insert_before(global).0 }).cancel_editing(
            later,
        ).0.is_editing(),
{
    let after = widget.list.insert_after_current(Seq::empty());
    assert(after.delete_current().items =~= widget.list.items);
    let before = widget.list.insert_before_current(Seq::empty());
    assert(before.delete_current().items =~= widget.list.items);
}

/// Accepting the edit of a row that was made for it leaves the list with
/// the typed text as a new row, below or above the row the cursor was on,
/// and with the cursor on the new row.
pub proof fn accept_completes_insert(
    widget: StringListView,
    typed: EditFieldView,
    global: Global,
    later: Global,
)
    requires
        !widget.is_editing(),
    ensures
        (StringListView { edit_field: typed, ..widget.insert_after(global).0 }).accept_editing(
            later,
        ).0.list == widget.list.insert_after_current(typed.buffer),
        (StringListView { edit_field: typed, ..widget.insert_before(global).0 }).accept_editing(
            later,
        ).0.list == widget.list.insert_before_current(typed.buffer),
{
    let after = widget.list.insert_after_current(Seq::empty());
    assert(after.set_current_item(typed.buffer).items =~= widget.list.insert_after_current(
        typed.buffer,
    ).items);
    let before = widget.list.insert_before_current(Seq::empty());
    assert(before.set_current_item(typed.buffer).items =~= widget.list.insert_before_current(
        typed.buffer,
    ).items);
}

/// Opening the editor on a row and accepting its text as it is leaves the
/// list as it was.
pub proof fn accept_of_untouched_edit_keeps_list(
    widget: StringListView,
    global: Global,
    later: Global,
)
    requires
        !widget.is_editing(),
    ensures
        widget.start_editing(global).0.accept_editing(later).0.list == widget.list,
        !widget.start_editing(global).0.accept_editing(later).0.is_editing(),
{
    if widget.list.has_current() {
        let item = widget.list.items[widget.list.cursor_y as int];
        assert(widget.list.set_current_item(item).items =~= widget.list.items);
    }
}

/// Cancelling the edit of a row that was there before leaves the list as it
/// was, whatever was typed.
pub proof fn cancel_of_edit_keeps_list(
    widget: StringListView,
    typed: EditFieldView,
    global: Global,
    later: Global,
)
    requires
        !widget.is_editing(),
    ensures
        (StringListView { edit_field: typed, ..widget.start_editing(global).0 }).cancel_editing(
            later,
        ).0.list == widget.list,
{
}

/// While the editor is open, the commands that change the list do nothing:
/// neither the list nor the state nor the shared state changes.
pub proof fn list_commands_wait_for_editor(widget: StringListView, global: Global)
    requires
        widget.is_editing(),
    ensures
        widget.duplicate_after() == widget,
        widget.duplicate_before() == widget,
        widget.insert_after(global) == (widget, global),
        widget.insert_before(global) == (widget, global),
        widget.start_editing(global) == (widget, global),
{
}

/// An open editor closes on return and on escape, and on no other key.
pub proof fn editor_closes_by_command_only(widget: StringListView, key: KeyStroke, global: Global)
    requires
        widget.is_editing(),
    ensures
        !widget.handle_key(key, global).0.is_editing() <==> key.editing_command() is Some,
{
}

/// The editor opens only from navigation, and only on a key that the
/// program does not claim and that stands for an insertion or for the start
/// of an edit.
pub proof fn editor_opens_by_command_only(widget: StringListView, key: KeyStroke, global: Global)
    requires
        !widget.is_editing(),
        widget.handle_key(key, global).0.is_editing(),
    ensures
        !Global::claims(key),
        key.navigate_command() == Some(Command::InsertAfter) || key.navigate_command() == Some(
            Command::InsertBefore,
        ) || key.navigate_command() == Some(Command::StartEditing),
        key.navigate_command() == Some(Command::StartEditing) ==> widget.list.has_current(),
{
}

} // verus!
