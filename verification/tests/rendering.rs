use modal_edit::cursor::{Cursor, DEFAULT_BLINK_INTERVAL_MS};
use modal_edit::editor::Editor;
use modal_edit::mode::Mode;
use modal_edit::render::{fmt_usize, status_text, Style};
use modal_edit::status_column::StatusColumn;

#[test]
fn cursor_new_is_visible_at_origin() {
    let c = Cursor::new();
    assert_eq!((c.x, c.y), (0, 0));
    assert!(c.visible);
    assert_eq!(c.blink_interval, DEFAULT_BLINK_INTERVAL_MS);
    assert_eq!(c.last_blink, 0);
}

#[test]
fn blink_toggles_in_insert_mode_after_interval() {
    let mut c = Cursor::new();
    c.blink(Mode::Insert, DEFAULT_BLINK_INTERVAL_MS);
    assert!(!c.visible);
    assert_eq!(c.last_blink, DEFAULT_BLINK_INTERVAL_MS);
    c.blink(Mode::Insert, 2 * DEFAULT_BLINK_INTERVAL_MS + 5);
    assert!(c.visible);
    assert_eq!(c.last_blink, 2 * DEFAULT_BLINK_INTERVAL_MS + 5);
}

#[test]
fn blink_waits_for_the_interval() {
    let mut c = Cursor::new();
    c.blink(Mode::Insert, DEFAULT_BLINK_INTERVAL_MS - 1);
    assert!(c.visible);
    assert_eq!(c.last_blink, 0);
}

#[test]
fn blink_forces_visible_in_normal_mode() {
    let mut c = Cursor::new();
    c.visible = false;
    c.blink(Mode::Normal, 10_000);
    assert!(c.visible);
}

#[test]
fn editor_blink_tick_uses_its_mode() {
    let mut e = Editor::new(None, Some("ab".to_string()));
    e.cursor.visible = false;
    e.update_cursor_blink(10_000);
    assert!(e.cursor.visible);

    e.mode = Mode::Insert;
    e.update_cursor_blink(20_000);
    assert!(!e.cursor.visible);
}

#[test]
fn fmt_usize_writes_decimal() {
    assert_eq!(fmt_usize(0), "0");
    assert_eq!(fmt_usize(7), "7");
    assert_eq!(fmt_usize(120), "120");
    assert_eq!(fmt_usize(10_005), "10005");
}

#[test]
fn status_text_shows_mode_and_one_based_position() {
    assert_eq!(status_text(Mode::Normal, 0, 0), "NORMAL | Line: 1, Col: 1 ");
    assert_eq!(status_text(Mode::Insert, 4, 2), "INSERT | Line: 3, Col: 5 ");
}

#[test]
fn render_plan_lays_out_gutter_text_cursor_status() {
    let e = Editor::new(None, Some("ab\ncd".to_string()));
    let ops = e.render_plan(10);
    // two rows of gutter + text, one cursor cell, one status line
    assert_eq!(ops.len(), 6);

    assert_eq!((ops[0].col, ops[0].row), (0, 0));
    assert_eq!(ops[0].text, "1 ");
    assert_eq!(ops[0].style, Style::GutterActive);

    assert_eq!((ops[1].col, ops[1].row), (2, 0));
    assert_eq!(ops[1].text, "ab");
    assert_eq!(ops[1].style, Style::Plain);

    assert_eq!((ops[2].col, ops[2].row), (0, 1));
    assert_eq!(ops[2].text, "2 ");
    assert_eq!(ops[2].style, Style::GutterInactive);

    assert_eq!((ops[3].col, ops[3].row), (2, 1));
    assert_eq!(ops[3].text, "cd");

    // Normal mode draws a block over the character under the cursor.
    assert_eq!((ops[4].col, ops[4].row), (2, 0));
    assert_eq!(ops[4].text, "a");
    assert_eq!(ops[4].style, Style::CursorBlock);

    assert_eq!((ops[5].col, ops[5].row), (0, 8));
    assert_eq!(ops[5].text, "NORMAL | Line: 1, Col: 1 ");
    assert_eq!(ops[5].style, Style::StatusBar);
}

#[test]
fn render_plan_hides_cursor_cell_when_blinked_off() {
    let mut e = Editor::new(None, Some("ab".to_string()));
    e.mode = Mode::Insert;
    e.cursor.visible = false;
    let ops = e.render_plan(5);
    assert_eq!(ops.len(), 3);
    assert!(ops.iter().all(|op| op.style != Style::CursorBlock && op.style != Style::CursorBar));
}

#[test]
fn render_plan_bar_cursor_in_insert_mode() {
    let mut e = Editor::new(None, Some("ab".to_string()));
    e.mode = Mode::Insert;
    e.cursor.x = 2;
    let ops = e.render_plan(5);
    let cursor_op = &ops[2];
    assert_eq!((cursor_op.col, cursor_op.row), (4, 0));
    assert_eq!(cursor_op.text, "|");
    assert_eq!(cursor_op.style, Style::CursorBar);
}

#[test]
fn render_plan_block_on_blank_past_line_end() {
    let mut e = Editor::new(None, Some("ab".to_string()));
    e.cursor.x = 2;
    let ops = e.render_plan(5);
    let cursor_op = &ops[2];
    assert_eq!(cursor_op.text, " ");
    assert_eq!(cursor_op.style, Style::CursorBlock);
}

#[test]
fn render_gutter_width_follows_line_count() {
    let mut text = String::new();
    for _ in 0..10 {
        text.push_str("x\n");
    }
    let e = Editor::new(None, Some(text));
    let ops = e.render_plan(20);
    // ten lines: gutter width two, numbers right-aligned
    assert_eq!(ops[0].text, " 1 ");
    assert_eq!(ops[18].text, "10 ");
    assert_eq!(ops[1].col, 3);
}

#[test]
fn render_tick_advances_blink_then_draws() {
    let mut e = Editor::new(None, Some("ab".to_string()));
    e.mode = Mode::Insert;
    let ops = e.render_plan(5);
    assert_eq!(ops.len(), 4);
    let ops = e.render(DEFAULT_BLINK_INTERVAL_MS, 5);
    assert!(!e.cursor.visible);
    assert_eq!(ops.len(), 3);
}

#[test]
fn status_column_tracks_lines() {
    let mut s = StatusColumn::new(None, Some(5));
    assert_eq!(s.active_line, 0);
    assert_eq!(s.total_lines, 5);
    s.move_active_line(3);
    assert_eq!(s.active_line, 3);
    let t = StatusColumn::new(Some(2), None);
    assert_eq!((t.active_line, t.total_lines), (2, 0));
}
