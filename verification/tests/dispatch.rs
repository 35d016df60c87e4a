use modal_edit::editor::Editor;
use modal_edit::key::Key;
use modal_edit::mode::Mode;

fn editor_with(content: &str) -> Editor {
    Editor::new(None, Some(content.to_string()))
}

#[test]
fn new_editor_starts_empty_normal_at_origin() {
    let e = Editor::new(None, None);
    assert_eq!(e.buffer.buffer_text, vec![String::new()]);
    assert_eq!(e.buffer.buffer_name, "");
    assert_eq!(e.cursor.x, 0);
    assert_eq!(e.cursor.y, 0);
    assert!(e.cursor.visible);
    assert_eq!(e.mode, Mode::Normal);
    assert!(!e.quit_on_interrupt);
}

#[test]
fn empty_file_becomes_single_empty_line() {
    let e = editor_with("");
    assert_eq!(e.buffer.buffer_text, vec![String::new()]);
}

#[test]
fn insert_type_escape_scenario() {
    let mut e = editor_with("abc");
    e.cursor.x = 3;
    assert_eq!(e.mode, Mode::Normal);

    assert!(!e.handle_keypress(Key::Char('i')));
    assert_eq!(e.mode, Mode::Insert);
    assert_eq!((e.cursor.x, e.cursor.y), (3, 0));

    assert!(!e.handle_keypress(Key::Char('d')));
    assert_eq!(e.buffer.buffer_text, vec!["abcd".to_string()]);
    assert_eq!((e.cursor.x, e.cursor.y), (4, 0));

    assert!(!e.handle_keypress(Key::Esc));
    assert_eq!(e.mode, Mode::Normal);
    assert_eq!((e.cursor.x, e.cursor.y), (3, 0));
}

#[test]
fn enter_splits_line_at_cursor() {
    let mut e = editor_with("hello\nworld");
    e.mode = Mode::Insert;
    e.cursor.x = 5;
    assert!(!e.handle_keypress(Key::Enter));
    assert_eq!(
        e.buffer.buffer_text,
        vec!["hello".to_string(), String::new(), "world".to_string()]
    );
    assert_eq!((e.cursor.x, e.cursor.y), (0, 1));
}

#[test]
fn backspace_at_line_start_joins_lines() {
    let mut e = editor_with("ab\ncd");
    e.mode = Mode::Insert;
    e.cursor.y = 1;
    e.cursor.x = 0;
    assert!(!e.handle_keypress(Key::Backspace));
    assert_eq!(e.buffer.buffer_text, vec!["abcd".to_string()]);
    assert_eq!((e.cursor.x, e.cursor.y), (2, 0));
}

#[test]
fn backspace_mid_line_removes_previous_char() {
    let mut e = editor_with("abc");
    e.mode = Mode::Insert;
    e.cursor.x = 2;
    assert!(!e.handle_keypress(Key::Backspace));
    assert_eq!(e.buffer.buffer_text, vec!["ac".to_string()]);
    assert_eq!((e.cursor.x, e.cursor.y), (1, 0));
}

#[test]
fn backspace_at_origin_is_noop() {
    let mut e = editor_with("abc");
    e.mode = Mode::Insert;
    assert!(!e.handle_keypress(Key::Backspace));
    assert_eq!(e.buffer.buffer_text, vec!["abc".to_string()]);
    assert_eq!((e.cursor.x, e.cursor.y), (0, 0));
}

#[test]
fn split_then_backspace_restores_line_and_column() {
    let mut e = editor_with("abcdef");
    e.mode = Mode::Insert;
    e.cursor.x = 3;
    assert!(!e.handle_keypress(Key::Enter));
    assert!(!e.handle_keypress(Key::Backspace));
    assert_eq!(e.buffer.buffer_text, vec!["abcdef".to_string()]);
    assert_eq!((e.cursor.x, e.cursor.y), (3, 0));
    assert_eq!(e.mode, Mode::Insert);
}

#[test]
fn edge_moves_are_noops() {
    let mut e = editor_with("ab\ncd");

    // left at column 0
    assert!(!e.handle_keypress(Key::Char('h')));
    assert_eq!((e.cursor.x, e.cursor.y), (0, 0));
    assert!(!e.handle_keypress(Key::Left));
    assert_eq!((e.cursor.x, e.cursor.y), (0, 0));

    // up at row 0
    assert!(!e.handle_keypress(Key::Char('k')));
    assert_eq!((e.cursor.x, e.cursor.y), (0, 0));

    // right at end of line
    e.cursor.x = 2;
    assert!(!e.handle_keypress(Key::Char('l')));
    assert_eq!((e.cursor.x, e.cursor.y), (2, 0));
    assert!(!e.handle_keypress(Key::Right));
    assert_eq!((e.cursor.x, e.cursor.y), (2, 0));

    // down at last row
    e.cursor.y = 1;
    e.cursor.x = 0;
    assert!(!e.handle_keypress(Key::Char('j')));
    assert_eq!((e.cursor.x, e.cursor.y), (0, 1));
    assert!(!e.handle_keypress(Key::Down));
    assert_eq!((e.cursor.x, e.cursor.y), (0, 1));
}

#[test]
fn vertical_movement_clamps_column() {
    let mut e = editor_with("longer line\nab");
    e.cursor.x = 11;
    assert!(!e.handle_keypress(Key::Char('j')));
    assert_eq!((e.cursor.x, e.cursor.y), (2, 1));
    assert!(!e.handle_keypress(Key::Char('k')));
    assert_eq!((e.cursor.x, e.cursor.y), (2, 0));
}

#[test]
fn line_start_and_end_keys_snap_column() {
    let mut e = editor_with("abcd");
    assert!(!e.handle_keypress(Key::Char('$')));
    assert_eq!(e.cursor.x, 4);
    assert!(!e.handle_keypress(Key::Char('0')));
    assert_eq!(e.cursor.x, 0);
}

#[test]
fn end_of_empty_line_stays_at_zero() {
    let mut e = editor_with("");
    assert!(!e.handle_keypress(Key::Char('$')));
    assert_eq!(e.cursor.x, 0);
}

#[test]
fn quit_key_requests_termination() {
    let mut e = editor_with("x");
    assert!(e.handle_keypress(Key::Char('q')));
}

#[test]
fn interrupt_is_suppressed_by_default() {
    let mut e = editor_with("x");
    assert!(!e.handle_keypress(Key::Interrupt));
    assert_eq!(e.mode, Mode::Normal);
}

#[test]
fn interrupt_quits_when_policy_allows() {
    let mut e = editor_with("x");
    e.quit_on_interrupt = true;
    assert!(e.handle_keypress(Key::Interrupt));
}

#[test]
fn escape_on_empty_line_keeps_column_zero() {
    let mut e = editor_with("");
    e.mode = Mode::Insert;
    assert!(!e.handle_keypress(Key::Esc));
    assert_eq!(e.mode, Mode::Normal);
    assert_eq!(e.cursor.x, 0);
}

#[test]
fn insert_mode_arrows_move_without_mode_change() {
    let mut e = editor_with("ab\ncd");
    e.mode = Mode::Insert;
    assert!(!e.handle_keypress(Key::Right));
    assert_eq!((e.cursor.x, e.cursor.y), (1, 0));
    assert!(!e.handle_keypress(Key::Down));
    assert_eq!((e.cursor.x, e.cursor.y), (1, 1));
    assert!(!e.handle_keypress(Key::Left));
    assert_eq!((e.cursor.x, e.cursor.y), (0, 1));
    assert!(!e.handle_keypress(Key::Up));
    assert_eq!((e.cursor.x, e.cursor.y), (0, 0));
    assert_eq!(e.mode, Mode::Insert);
}

#[test]
fn colon_requests_prompt_only_in_normal_mode() {
    let mut e = editor_with("x");
    assert!(e.requests_command_prompt(Key::Char(':')));
    assert!(!e.requests_command_prompt(Key::Char('w')));
    e.mode = Mode::Insert;
    assert!(!e.requests_command_prompt(Key::Char(':')));
}

#[test]
fn unbound_keys_do_nothing() {
    let mut e = editor_with("ab");
    assert!(!e.handle_keypress(Key::Other));
    assert_eq!(e.buffer.buffer_text, vec!["ab".to_string()]);
    e.mode = Mode::Insert;
    assert!(!e.handle_keypress(Key::Other));
    assert_eq!(e.buffer.buffer_text, vec!["ab".to_string()]);
}
