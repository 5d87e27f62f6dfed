use ccm::diff_nav::{DiffLine, DiffState, LineComment};
use ccm::keys::{KeyCode, KeyEvent, KeyModifiers};
use ccm::review::{
    comment_to_delete, handle_diff_key, review_prompt, start_add_line_comment, start_edit_line_comment,
    switch_to_terminal_view, take_line_comment_update, take_new_line_comment,
};
use ccm::state::{AsyncAction, Focus, InputMode, PrefixMode, RightPanelView, TerminalMode};
use ccm::text::int_to_string;
use ccm::text_input::TextInput;
use ccm::ui_state::{UiCommand, UiState};

fn ui() -> UiState {
    UiState {
        focus: Focus::DiffFiles,
        saved_focus_stack: Vec::new(),
        right_panel_view: RightPanelView::Diff,
        input_mode: InputMode::Normal,
        prefix_mode: PrefixMode::Inactive,
        terminal_mode: TerminalMode::Normal,
        fullscreen: false,
        is_interactive: false,
        tree_view_enabled: true,
        has_active_session: false,
        should_quit: false,
        status_message: None,
        error_message: None,
        text_input: TextInput::new(),
    }
}

fn line(old: Option<i32>, new: Option<i32>, line_type: i32) -> DiffLine {
    DiffLine { old_lineno: old, new_lineno: new, line_type }
}

/// "src/a.rs" expanded with two lines (new line 10, deleted old line 4).
fn diff() -> DiffState {
    let mut d = DiffState::new();
    d.files = vec!["src/a.rs".to_string(), "src/b.rs".to_string()];
    d.expanded = vec![true, false];
    d.file_lines = vec![Some(vec![line(Some(9), Some(10), 1), line(Some(4), None, 2)]), None];
    d
}

fn comment(id: &str, path: &str, line: i32, text: &str) -> LineComment {
    LineComment {
        id: id.to_string(),
        file_path: path.to_string(),
        line_number: line,
        line_type: 3,
        comment: text.to_string(),
    }
}

fn key(code: KeyCode) -> KeyEvent {
    KeyEvent::new(code, KeyModifiers::empty())
}

#[test]
fn add_comment_needs_a_line() {
    let mut u = ui();
    let mut d = diff();
    start_add_line_comment(&mut u, &d);
    assert_eq!(u.status_message.as_deref(), Some("Move cursor to a diff line to add comment"));
    assert_eq!(u.input_mode, InputMode::Normal);
    d.cursor = 2;
    start_add_line_comment(&mut u, &d);
    assert_eq!(
        u.input_mode,
        InputMode::AddLineComment { file_path: "src/a.rs".to_string(), line_number: 4, line_type: 2 }
    );
    assert_eq!(u.saved_focus_stack, vec![Focus::DiffFiles]);
}

#[test]
fn new_comment_is_trimmed_and_closes_dialog() {
    let mut u = ui();
    u.saved_focus_stack.push(Focus::DiffFiles);
    u.focus = Focus::Sidebar;
    u.input_mode = InputMode::AddLineComment { file_path: "src/a.rs".to_string(), line_number: 10, line_type: 1 };
    u.text_input.set_content("  looks wrong  ");
    let c = take_new_line_comment(&mut u).unwrap();
    assert_eq!(c.file_path, "src/a.rs");
    assert_eq!(c.line_number, 10);
    assert_eq!(c.line_type, 1);
    assert_eq!(c.text, "looks wrong");
    assert_eq!(u.input_mode, InputMode::Normal);
    assert_eq!(u.focus, Focus::DiffFiles);
    assert_eq!(u.text_input.content(), "");
    u.input_mode = InputMode::AddLineComment { file_path: "x".to_string(), line_number: 1, line_type: 1 };
    u.text_input.set_content("   ");
    assert!(take_new_line_comment(&mut u).is_none());
    assert_eq!(u.status_message.as_deref(), Some("Comment cannot be empty"));
    // Outside the dialog nothing happens.
    assert!(take_new_line_comment(&mut u).is_none());
}

#[test]
fn edit_and_delete_comment_on_cursor_line() {
    let comments = vec![comment("c1", "src/a.rs", 10, "first"), comment("c2", "src/a.rs", 4, "second")];
    let mut u = ui();
    let mut d = diff();
    d.cursor = 1;
    start_edit_line_comment(&mut u, &d, &comments);
    assert_eq!(
        u.input_mode,
        InputMode::EditLineComment { comment_id: "c1".to_string(), file_path: "src/a.rs".to_string(), line_number: 10 }
    );
    assert_eq!(u.text_input.content(), "first");
    u.text_input.set_content("better");
    assert_eq!(take_line_comment_update(&mut u), Some(("c1".to_string(), "better".to_string())));
    d.cursor = 2;
    assert_eq!(comment_to_delete(&mut u, &d, &comments), Some("c2".to_string()));
    d.cursor = 3;
    assert_eq!(comment_to_delete(&mut u, &d, &comments), None);
    assert_eq!(u.status_message.as_deref(), Some("No comment on this line to delete"));
    start_edit_line_comment(&mut u, &d, &comments);
    assert_eq!(u.status_message.as_deref(), Some("No comment on this line to edit"));
}

#[test]
fn diff_keys() {
    let comments = vec![comment("c1", "src/a.rs", 4, "note")];
    let mut u = ui();
    let mut d = diff();
    assert!(matches!(handle_diff_key(&mut u, &mut d, &comments, &key(KeyCode::Char('}'))), UiCommand::Nothing));
    assert_eq!(d.cursor, 3);
    assert!(matches!(
        handle_diff_key(&mut u, &mut d, &comments, &key(KeyCode::Enter)),
        UiCommand::Run(AsyncAction::LoadFileDiff)
    ));
    assert_eq!(d.expanded, vec![true, true]);
    handle_diff_key(&mut u, &mut d, &comments, &key(KeyCode::Char('{')));
    assert_eq!(d.cursor, 0);
    handle_diff_key(&mut u, &mut d, &comments, &key(KeyCode::Char('n')));
    assert_eq!(d.cursor, 2);
    assert_eq!(u.status_message.as_deref(), Some("Jumped to comment at line 4"));
    assert!(matches!(
        handle_diff_key(&mut u, &mut d, &comments, &key(KeyCode::Char('x'))),
        UiCommand::Run(AsyncAction::DeleteLineComment)
    ));
    assert!(matches!(
        handle_diff_key(&mut u, &mut d, &comments, &key(KeyCode::Char('S'))),
        UiCommand::Run(AsyncAction::SubmitReviewToClaude)
    ));
    handle_diff_key(&mut u, &mut d, &comments, &key(KeyCode::Char('f')));
    assert!(d.fullscreen);
    handle_diff_key(&mut u, &mut d, &[], &key(KeyCode::Char('N')));
    assert_eq!(u.status_message.as_deref(), Some("No comments to jump to"));
    handle_diff_key(&mut u, &mut d, &comments, &key(KeyCode::Esc));
    assert_eq!(u.focus, Focus::Sidebar);
    assert_eq!(u.right_panel_view, RightPanelView::Terminal);
    assert!(d.files.is_empty());
}

#[test]
fn terminal_view_clears_diff() {
    let mut u = ui();
    let mut d = diff();
    d.cursor = 2;
    d.scroll_offset = 1;
    switch_to_terminal_view(&mut u, &mut d);
    assert_eq!(d.cursor, 0);
    assert_eq!(d.scroll_offset, 0);
    assert!(d.file_lines.is_empty());
}

#[test]
fn integers_in_decimal() {
    assert_eq!(int_to_string(0), "0");
    assert_eq!(int_to_string(42), "42");
    assert_eq!(int_to_string(-7), "-7");
    assert_eq!(int_to_string(i32::MAX), "2147483647");
    assert_eq!(int_to_string(i32::MIN), "-2147483648");
}

#[test]
fn review_prompt_groups_by_file() {
    assert_eq!(review_prompt(&[]), None);
    let mut deleted = comment("c2", "b.rs", 7, "why removed?");
    deleted.line_type = 4;
    let mut context = comment("c3", "a.rs", 1, "ok");
    context.line_type = 1;
    let comments = vec![comment("c1", "a.rs", 12, "rename this"), deleted, context];
    let expected = "Please help me review the following code changes:\n\n\
## File: a.rs\n\n\
### Line 12 (+)\nComment: rename this\n\n\
### Line 1 ( )\nComment: ok\n\n\
## File: b.rs\n\n\
### Line 7 (-)\nComment: why removed?\n\n\
---\nPlease provide your suggestions for the above comments.\n";
    assert_eq!(review_prompt(&comments), Some(expected.to_string()));
}

#[test]
fn listed_files_open_the_pending_one() {
    let mut d = diff();
    d.cursor = 2;
    d.scroll_offset = 3;
    let files = vec!["a".to_string(), "b".to_string(), "c".to_string(), "b".to_string()];
    d.set_files(files.clone(), Some("b".to_string()));
    assert_eq!(d.files, files);
    assert_eq!(d.expanded, vec![false, true, false, false]);
    assert!(d.file_lines.iter().all(|l| l.is_none()));
    assert_eq!(d.cursor, 1);
    assert_eq!(d.scroll_offset, 0);
    assert_eq!(d.file_to_load(), Some(1));

    d.set_files(files.clone(), Some("zzz".to_string()));
    assert_eq!(d.cursor, 0);
    assert_eq!(d.expanded, vec![false; 4]);
    assert_eq!(d.file_to_load(), None);
    d.set_files(Vec::new(), None);
    assert!(d.files.is_empty());
}

#[test]
fn loaded_file_lines_or_collapse_on_failure() {
    let mut d = diff();
    d.expanded = vec![true, true];
    assert_eq!(d.file_to_load(), Some(1));
    assert_eq!(d.file_diff_loaded(1, Ok(vec![line(None, Some(1), 1)])), None);
    assert_eq!(d.file_lines[1].as_ref().map(|l| l.len()), Some(1));
    assert_eq!(d.file_to_load(), None);

    let mut e = diff();
    e.expanded = vec![true, true];
    let msg = e.file_diff_loaded(1, Err("no such file".to_string()));
    assert_eq!(msg, Some("Failed to load file diff: no such file".to_string()));
    assert_eq!(e.expanded, vec![true, false]);
    assert!(e.file_lines[1].is_none());
    assert_eq!(e.file_diff_loaded(9, Err("x".to_string())), None);
}
