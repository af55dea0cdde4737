use string_list::edit_field::EditField;
use string_list::geometry::{wrap, Rect, Row};
use string_list::global::Global;
use string_list::item_list::ItemList;
use string_list::string_list::{StringList, StringListState};

fn list_of(items: &[&str], cursor_y: usize) -> ItemList {
    let mut list = ItemList::new();
    list.items = items.iter().map(|item| item.to_string()).collect();
    list.cursor_y = cursor_y;
    list
}

fn editing(items: &[&str], cursor_y: usize, buffer: &str, cursor_x: usize) -> StringList {
    let mut widget = StringList::new();
    widget.list = list_of(items, cursor_y);
    widget.state = StringListState::Editing { new: false, prev_cursor_y: cursor_y };
    widget.edit_field.buffer = buffer.to_string();
    widget.edit_field.cursor_x = cursor_x;
    widget
}

#[test]
fn wrap_is_the_remainder() {
    assert_eq!(wrap(0, 4), 0);
    assert_eq!(wrap(3, 4), 3);
    assert_eq!(wrap(4, 4), 0);
    assert_eq!(wrap(13, 4), 1);
    assert_eq!(wrap(13, 1), 0);
    assert_eq!(wrap(13, 0), 0);
    assert_eq!(wrap(usize::MAX, usize::MAX), 0);
}

#[test]
fn on_screen_is_bounded_by_i32() {
    let max = i32::MAX as usize;
    assert!(Rect { x: 0, y: 0, w: 0, h: 0 }.on_screen());
    assert!(Rect { x: 0, y: 0, w: 80, h: 24 }.on_screen());
    assert!(Rect { x: max, y: max, w: 0, h: 0 }.on_screen());
    assert!(Rect { x: 1, y: 2, w: max - 1, h: max - 2 }.on_screen());
    assert!(!Rect { x: 1, y: 0, w: max, h: 0 }.on_screen());
    assert!(!Rect { x: 0, y: 1, w: 0, h: max }.on_screen());
    assert!(!Rect { x: max + 1, y: 0, w: 0, h: 0 }.on_screen());
    assert!(!Rect { x: 0, y: usize::MAX, w: 0, h: 1 }.on_screen());
    assert!(!Rect { x: usize::MAX, y: 0, w: usize::MAX, h: 0 }.on_screen());
}

#[test]
fn list_frame_shows_all_rows_of_a_short_list() {
    let list = list_of(&["a", "b", "c"], 1);
    let frame = list.render(Rect { x: 2, y: 5, w: 10, h: 4 }, true);
    assert!(frame.focused);
    assert_eq!(frame.selected, Some(1));
    assert_eq!(frame.lines.len(), 3);
    for (i, text) in ["a", "b", "c"].iter().enumerate() {
        assert_eq!(frame.lines[i].text, *text);
        assert_eq!(frame.lines[i].row, Row { x: 2, y: 5 + i, w: 10 });
    }
}

#[test]
fn list_frame_shows_the_page_of_the_cursor() {
    let list = list_of(&["a", "b", "c", "d", "e", "f", "g"], 4);
    let rect = Rect { x: 0, y: 10, w: 3, h: 3 };
    let frame = list.render(rect, false);
    assert!(!frame.focused);
    assert_eq!(frame.selected, Some(1));
    assert_eq!(frame.lines.len(), 3);
    assert_eq!(frame.lines[0].text, "d");
    assert_eq!(frame.lines[1].text, "e");
    assert_eq!(frame.lines[2].text, "f");
    assert_eq!(frame.lines[0].row, Row { x: 0, y: 10, w: 3 });
    assert_eq!(frame.lines[2].row, Row { x: 0, y: 12, w: 3 });
    assert_eq!(list.current_row(rect), Row { x: 0, y: 11, w: 3 });

    let last = list_of(&["a", "b", "c", "d", "e", "f", "g"], 6);
    let frame = last.render(rect, false);
    assert_eq!(frame.selected, Some(0));
    assert_eq!(frame.lines.len(), 1);
    assert_eq!(frame.lines[0].text, "g");
    assert_eq!(frame.lines[0].row, Row { x: 0, y: 10, w: 3 });
    assert_eq!(last.current_row(rect), Row { x: 0, y: 10, w: 3 });
}

#[test]
fn list_frame_of_an_empty_list_or_an_empty_rectangle() {
    let empty = ItemList::new();
    let frame = empty.render(Rect { x: 1, y: 1, w: 5, h: 5 }, true);
    assert!(frame.lines.is_empty());
    assert_eq!(frame.selected, None);

    let list = list_of(&["a", "b"], 1);
    let flat = Rect { x: 1, y: 7, w: 5, h: 0 };
    let frame = list.render(flat, true);
    assert!(frame.lines.is_empty());
    assert_eq!(frame.selected, None);
    assert_eq!(list.current_row(flat), Row { x: 1, y: 7, w: 5 });
}

#[test]
fn list_frame_with_the_cursor_beyond_the_list() {
    let list = list_of(&["a", "b"], 7);
    let frame = list.render(Rect { x: 0, y: 0, w: 5, h: 3 }, true);
    assert!(frame.lines.is_empty());
    assert_eq!(frame.selected, None);
}

#[test]
fn editor_line_is_the_page_of_its_cursor() {
    let mut field = EditField::new();
    field.buffer = String::from("abcdefghij");
    let row = Row { x: 3, y: 4, w: 4 };
    field.cursor_x = 0;
    let line = field.render(row);
    assert_eq!(line.text, "abcd");
    assert_eq!(line.row, row);
    field.cursor_x = 3;
    assert_eq!(field.render(row).text, "abcd");
    field.cursor_x = 4;
    assert_eq!(field.render(row).text, "efgh");
    field.cursor_x = 9;
    assert_eq!(field.render(row).text, "ij");
    field.cursor_x = 10;
    assert_eq!(field.render(row).text, "ij");
    field.cursor_x = 12;
    assert_eq!(field.render(row).text, "");
    field.cursor_x = 40;
    assert_eq!(field.render(row).text, "");
    field.cursor_x = 2;
    assert_eq!(field.render(Row { x: 3, y: 4, w: 0 }).text, "");
    assert_eq!(field.render(Row { x: 3, y: 4, w: 100 }).text, "abcdefghij");
}

#[test]
fn editor_line_counts_characters() {
    let mut field = EditField::new();
    field.buffer = String::from("äöüß€xyz");
    field.cursor_x = 5;
    assert_eq!(field.render(Row { x: 0, y: 0, w: 3 }).text, "ß€x");
}

#[test]
fn render_while_navigated_draws_the_list_only() {
    let mut widget = StringList::new();
    widget.list = list_of(&["a", "b"], 1);
    let mut global = Global::new();
    global.cursor_x = 7;
    global.cursor_y = 9;
    let frame = widget.render(Rect { x: 1, y: 2, w: 8, h: 4 }, true, &mut global);
    assert!(frame.editor.is_none());
    assert_eq!(frame.list.lines.len(), 2);
    assert_eq!(frame.list.selected, Some(1));
    assert!(frame.list.focused);
    assert_eq!((global.cursor_x, global.cursor_y), (7, 9));
    assert!(!global.cursor_visible);
    assert!(!global.quit);
}

#[test]
fn render_while_editing_draws_the_editor_and_moves_the_cursor() {
    let widget = editing(&["a", "b", "c", "d", "e"], 3, "hello world", 7);
    let mut global = Global::new();
    global.cursor_visible = true;
    let rect = Rect { x: 10, y: 20, w: 5, h: 2 };
    let frame = widget.render(rect, false, &mut global);
    assert_eq!(frame.list.lines.len(), 2);
    assert_eq!(frame.list.lines[0].text, "c");
    assert_eq!(frame.list.lines[1].text, "d");
    assert_eq!(frame.list.selected, Some(1));
    assert!(!frame.list.focused);
    let editor = frame.editor.expect("the editor is open");
    assert_eq!(editor.row, Row { x: 10, y: 21, w: 5 });
    assert_eq!(editor.text, " worl");
    assert_eq!(global.cursor_x, 12);
    assert_eq!(global.cursor_y, 21);
    assert!(global.cursor_visible);
    assert!(!global.quit);
}

#[test]
fn render_in_a_rectangle_without_cells() {
    let widget = editing(&["a", "b"], 1, "xyz", 2);
    let mut global = Global::new();
    let frame = widget.render(Rect { x: 4, y: 6, w: 0, h: 0 }, true, &mut global);
    assert!(frame.list.lines.is_empty());
    assert_eq!(frame.list.selected, None);
    let editor = frame.editor.expect("the editor is open");
    assert_eq!(editor.row, Row { x: 4, y: 6, w: 0 });
    assert_eq!(editor.text, "");
    assert_eq!((global.cursor_x, global.cursor_y), (4, 6));
}

#[test]
fn render_at_the_edge_of_the_screen() {
    let max = i32::MAX as usize;
    let widget = editing(&["a", "b", "c"], 2, "xyz", 2);
    let mut global = Global::new();
    let rect = Rect { x: max - 3, y: max - 3, w: 3, h: 3 };
    assert!(rect.on_screen());
    let frame = widget.render(rect, true, &mut global);
    assert_eq!(frame.list.lines.len(), 3);
    assert_eq!(frame.list.lines[2].row, Row { x: max - 3, y: max - 1, w: 3 });
    assert_eq!(global.cursor_x, i32::MAX - 1);
    assert_eq!(global.cursor_y, i32::MAX - 1);
}

#[test]
fn render_twice_gives_the_same_cursor() {
    let widget = editing(&["a", "b", "c"], 2, "hello", 5);
    let rect = Rect { x: 1, y: 1, w: 4, h: 2 };
    let mut global = Global::new();
    global.cursor_visible = true;
    let first_frame = widget.render(rect, true, &mut global);
    let first = global;
    let second_frame = widget.render(rect, true, &mut global);
    assert_eq!(first, global);
    assert_eq!((global.cursor_x, global.cursor_y), (2, 1));
    assert_eq!(first_frame.list.lines.len(), second_frame.list.lines.len());
    assert_eq!(first_frame.list.selected, second_frame.list.selected);
    assert_eq!(
        first_frame.editor.map(|line| (line.row, line.text)),
        second_frame.editor.map(|line| (line.row, line.text))
    );

    let mut navigated = StringList::new();
    navigated.list = list_of(&["a"], 0);
    let mut global = Global::new();
    navigated.render(rect, true, &mut global);
    let first = global;
    navigated.render(rect, true, &mut global);
    assert_eq!(first, global);
    assert_eq!(global, Global::new());
}

#[test]
fn cursor_follows_typing_across_the_row_width() {
    let mut widget = StringList::new();
    let mut global = Global::new();
    widget.insert_after(&mut global);
    let rect = Rect { x: 5, y: 0, w: 3, h: 1 };
    let mut columns = Vec::new();
    let mut shown = Vec::new();
    for ch in ['a', 'b', 'c', 'd'] {
        widget.edit_field.insert_char(ch);
        let frame = widget.render(rect, true, &mut global);
        columns.push(global.cursor_x);
        shown.push(frame.editor.expect("the editor is open").text);
    }
    assert_eq!(columns, vec![6, 7, 5, 6]);
    assert_eq!(shown, vec!["a", "ab", "", "d"]);
}
