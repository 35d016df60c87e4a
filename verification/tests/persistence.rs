use modal_edit::buffer::Buffer;
use modal_edit::command::{
    filename_is_valid, parse_command, trim_copy, unknown_command_message, CommandAction,
};
use modal_edit::editor::Editor;
use modal_edit::text::split_content;

#[test]
fn split_content_on_terminated_lines() {
    let lines = split_content("a\nb\n");
    assert_eq!(lines, vec!["a".to_string(), "b".to_string()]);
}

#[test]
fn split_content_keeps_unterminated_last_line() {
    let lines = split_content("a\nb");
    assert_eq!(lines, vec!["a".to_string(), "b".to_string()]);
}

#[test]
fn split_content_sees_empty_lines() {
    let lines = split_content("\n\nx\n");
    assert_eq!(lines, vec![String::new(), String::new(), "x".to_string()]);
}

#[test]
fn load_then_save_reproduces_content() {
    let content = "alpha\nbeta\ngamma\n";
    let e = Editor::new(Some("f.txt".to_string()), Some(content.to_string()));
    assert_eq!(e.saved_content(), content);
}

#[test]
fn save_normalizes_missing_trailing_terminator() {
    let e = Editor::new(None, Some("a\nb".to_string()));
    assert_eq!(e.saved_content(), "a\nb\n");
}

#[test]
fn empty_buffer_saves_one_terminated_empty_line() {
    let e = Editor::new(None, None);
    assert_eq!(e.saved_content(), "\n");
}

#[test]
fn write_quit_writes_bound_file_content() {
    let e = Editor::new(Some("out.txt".to_string()), Some("x".to_string()));
    assert_eq!(parse_command("wq"), CommandAction::WriteQuit);
    assert!(!e.needs_filename());
    assert_eq!(e.buffer.buffer_name, "out.txt");
    assert_eq!(e.saved_content(), "x\n");
}

#[test]
fn parse_command_recognizes_save_and_quit() {
    assert_eq!(parse_command("w"), CommandAction::Write);
    assert_eq!(parse_command("q"), CommandAction::Quit);
    assert_eq!(parse_command("wq"), CommandAction::WriteQuit);
}

#[test]
fn parse_command_trims_whitespace() {
    assert_eq!(parse_command("  w \n"), CommandAction::Write);
    assert_eq!(parse_command("\twq\r\n"), CommandAction::WriteQuit);
}

#[test]
fn parse_command_rejects_everything_else() {
    assert_eq!(parse_command("x"), CommandAction::Unknown);
    assert_eq!(parse_command("write"), CommandAction::Unknown);
    assert_eq!(parse_command("qw"), CommandAction::Unknown);
    assert_eq!(parse_command(""), CommandAction::Unknown);
}

#[test]
fn unknown_command_report_names_the_command() {
    assert_eq!(
        unknown_command_message("frobnicate\n"),
        "Unsupported or unknown command: frobnicate"
    );
}

#[test]
fn trim_copy_strips_both_ends() {
    assert_eq!(trim_copy("  hi\t\n"), "hi");
    assert_eq!(trim_copy(""), "");
    assert_eq!(trim_copy(" \t "), "");
    assert_eq!(trim_copy("a b"), "a b");
}

#[test]
fn blank_filenames_are_rejected() {
    assert!(!filename_is_valid(""));
    assert!(!filename_is_valid(" \t\n"));
    assert!(filename_is_valid(" out.txt \n"));
}

#[test]
fn needs_filename_only_when_name_empty() {
    let mut e = Editor::new(None, None);
    assert!(e.needs_filename());
    e.bind_filename("saved.txt".to_string());
    assert!(!e.needs_filename());
    assert_eq!(e.buffer.buffer_name, "saved.txt");
}

#[test]
fn buffer_new_keeps_fields() {
    let b = Buffer::new(
        2,
        1,
        "name.txt".to_string(),
        vec!["a".to_string(), "b".to_string()],
    );
    assert_eq!(b.lines, 2);
    assert_eq!(b.active_line, 1);
    assert_eq!(b.buffer_name, "name.txt");
    assert_eq!(b.buffer_text, vec!["a".to_string(), "b".to_string()]);
}
