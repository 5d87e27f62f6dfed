use ccm::actions::Action;
use ccm::diff_line::{render_word_diff_line, PieceStyle, SyntaxSpan};
use ccm::git_panel::{GitPanel, ReportedFile};
use ccm::keys::{KeyCode, KeyEvent, KeyModifiers};
use ccm::repo::{RepoList, RepoState, SessionInfo, ShellSwitch, WorktreeInfo};
use ccm::state::{default_expanded_git_sections, AsyncAction, GitPanelItem, GitSection, GitStatusFile, InputMode};
use ccm::text_input::TextInput;
use ccm::todo::{
    calculate_depth, display_order, handle_add_todo_key, handle_confirm_delete_todo_key,
    handle_edit_todo_description_key, handle_edit_todo_key, TodoItem, TodoState,
};
use ccm::state::{Focus, RightPanelView};
use ccm::ui_state::UiCommand;
use ccm::word_diff::Color;

fn file(path: &str, section: GitSection) -> GitStatusFile {
    GitStatusFile { path: path.to_string(), status: 1, section }
}

/// Untracked "c", unstaged "b", staged "a" and "d"; all sections expanded.
fn sample_panel() -> GitPanel {
    GitPanel {
        files: vec![
            file("c", GitSection::Untracked),
            file("b", GitSection::Unstaged),
            file("a", GitSection::Staged),
            file("d", GitSection::Staged),
        ],
        expanded_sections: default_expanded_git_sections(),
        cursor: 0,
        pending_diff_file: None,
    }
}

#[test]
fn git_panel_rows_follow_sections() {
    let mut p = sample_panel();
    let expected = [
        GitPanelItem::Section(GitSection::Staged),
        GitPanelItem::File(2),
        GitPanelItem::File(3),
        GitPanelItem::Section(GitSection::Unstaged),
        GitPanelItem::File(1),
        GitPanelItem::Section(GitSection::Untracked),
        GitPanelItem::File(0),
        GitPanelItem::Empty,
    ];
    for (row, item) in expected.iter().enumerate() {
        p.cursor = row;
        assert_eq!(p.current_git_panel_item(), *item, "row {}", row);
    }
}

#[test]
fn git_panel_skips_empty_sections_and_collapses() {
    let mut p = GitPanel {
        files: vec![file("x", GitSection::Untracked)],
        expanded_sections: default_expanded_git_sections(),
        cursor: 0,
        pending_diff_file: None,
    };
    assert_eq!(p.current_git_panel_item(), GitPanelItem::Section(GitSection::Untracked));
    assert!(p.toggle_git_section_expand());
    assert!(!p.expanded_sections.contains(GitSection::Untracked));
    p.cursor = 1;
    assert_eq!(p.current_git_panel_item(), GitPanelItem::Empty);
    assert!(!p.toggle_git_section_expand());
    p.cursor = 0;
    assert!(p.toggle_git_section_expand());
    assert!(p.expanded_sections.contains(GitSection::Untracked));
}

#[test]
fn git_panel_file_path_and_staged() {
    let mut p = sample_panel();
    assert_eq!(p.current_git_file_path(), None);
    assert!(p.is_current_git_item_staged());
    p.cursor = 2;
    assert_eq!(p.current_git_file_path(), Some("d".to_string()));
    assert!(p.is_current_git_item_staged());
    p.cursor = 4;
    assert_eq!(p.current_git_file_path(), Some("b".to_string()));
    assert!(!p.is_current_git_item_staged());
    p.cursor = 3;
    assert!(!p.is_current_git_item_staged());
    p.cursor = 20;
    assert!(!p.is_current_git_item_staged());
}

fn todo(id: &str, parent: Option<&str>, order: i32) -> TodoItem {
    TodoItem {
        id: id.to_string(),
        parent_id: parent.map(|p| p.to_string()),
        title: format!("title {}", id),
        description: None,
        completed: false,
        order,
    }
}

fn sample_todos() -> Vec<TodoItem> {
    vec![
        todo("b", None, 2),
        todo("a", None, 1),
        todo("a2", Some("a"), 5),
        todo("a1", Some("a"), 0),
        todo("a1x", Some("a1"), 0),
        todo("orphan", Some("missing"), 0),
        todo("c", None, 1),
    ]
}

#[test]
fn todo_display_order_is_depth_first_by_order() {
    let items = sample_todos();
    // a (order 1, first), c (order 1, later), b (order 2); a's children by order.
    assert_eq!(display_order(&items), vec![1, 3, 4, 2, 6, 0]);
    assert_eq!(display_order(&[]), Vec::<usize>::new());
}

#[test]
fn todo_listing_shows_each_item_once() {
    // Unique ids, with a deep chain, siblings of equal order and a loop of
    // parents: every position appears at most once.
    let items = vec![
        todo("r", None, 0),
        todo("x", Some("r"), 1),
        todo("y", Some("r"), 1),
        todo("z", Some("y"), 0),
        todo("w", Some("z"), 0),
        todo("p", Some("q"), 0),
        todo("q", Some("p"), 0),
    ];
    let order = display_order(&items);
    assert_eq!(order, vec![0, 1, 2, 3, 4]);
    let mut seen = vec![false; items.len()];
    for &i in &order {
        assert!(!seen[i]);
        seen[i] = true;
    }
}

#[test]
fn todo_listing_shows_every_item_hanging_from_the_top() {
    let items = sample_todos();
    let order = display_order(&items);
    // Everything but the orphan (whose parent is missing) is listed.
    for i in 0..items.len() {
        assert_eq!(order.contains(&i), items[i].id != "orphan", "{}", items[i].id);
    }
}

#[test]
fn todo_depth_follows_parents() {
    let items = sample_todos();
    assert_eq!(calculate_depth(&items, 0), 0);
    assert_eq!(calculate_depth(&items, 3), 1);
    assert_eq!(calculate_depth(&items, 4), 2);
    assert_eq!(calculate_depth(&items, 5), 0);
}

fn sample_todo_state() -> TodoState {
    let items = sample_todos();
    let mut t = TodoState { items, display_order: Vec::new(), cursor: 0, scroll_offset: 3, show_completed: false };
    t.rebuild_todo_display_order();
    t
}

#[test]
fn todo_cursor_moves_within_listing() {
    let mut t = sample_todo_state();
    let mut mode = InputMode::TodoPopup;
    let mut input = TextInput::new();
    assert!(t.execute_todo_action(Action::MoveUp, &mut mode, &mut input).is_none());
    assert_eq!(t.cursor, 0);
    t.execute_todo_action(Action::MoveDown, &mut mode, &mut input);
    assert_eq!(t.cursor, 1);
    t.execute_todo_action(Action::GotoBottom, &mut mode, &mut input);
    assert_eq!(t.cursor, 5);
    t.execute_todo_action(Action::MoveDown, &mut mode, &mut input);
    assert_eq!(t.cursor, 5);
    t.execute_todo_action(Action::GotoTop, &mut mode, &mut input);
    assert_eq!(t.cursor, 0);
    assert_eq!(mode, InputMode::TodoPopup);
}

#[test]
fn todo_actions_open_dialogs() {
    let mut t = sample_todo_state();
    let mut mode = InputMode::TodoPopup;
    let mut input = TextInput::with_content("stale");
    t.cursor = 1; // "a1"
    match t.execute_todo_action(Action::ToggleTodoComplete, &mut mode, &mut input) {
        Some(AsyncAction::ToggleTodo { todo_id }) => assert_eq!(todo_id, "a1"),
        other => panic!("unexpected {:?}", other),
    }
    t.execute_todo_action(Action::AddChildTodo, &mut mode, &mut input);
    assert_eq!(mode, InputMode::AddTodo { parent_id: Some("a1".to_string()) });
    assert_eq!(input.content(), "");
    t.execute_todo_action(Action::EditTodoTitle, &mut mode, &mut input);
    assert_eq!(mode, InputMode::EditTodo { todo_id: "a1".to_string() });
    assert_eq!(input.content(), "title a1");
    assert_eq!(input.cursor_position(), 8);
    t.execute_todo_action(Action::EditTodoDescription, &mut mode, &mut input);
    assert_eq!(mode, InputMode::EditTodoDescription { todo_id: "a1".to_string() });
    assert_eq!(input.content(), "");
    t.execute_todo_action(Action::DeleteTodo, &mut mode, &mut input);
    assert_eq!(mode, InputMode::ConfirmDeleteTodo { todo_id: "a1".to_string(), title: "title a1".to_string() });
    t.execute_todo_action(Action::AddTodo, &mut mode, &mut input);
    assert_eq!(mode, InputMode::AddTodo { parent_id: None });
    assert!(matches!(
        t.execute_todo_action(Action::ToggleShowCompleted, &mut mode, &mut input),
        Some(AsyncAction::LoadTodos)
    ));
    assert!(t.show_completed);
    let mut closed = mode.clone();
    t.close_popup(&mut closed);
    assert_eq!(closed, InputMode::Normal);
    assert_eq!(t.cursor, 0);
    assert_eq!(t.scroll_offset, 0);
}

#[test]
fn todo_actions_without_items() {
    let mut t = TodoState { items: Vec::new(), display_order: Vec::new(), cursor: 0, scroll_offset: 0, show_completed: true };
    let mut mode = InputMode::TodoPopup;
    let mut input = TextInput::new();
    assert!(t.execute_todo_action(Action::ToggleTodoComplete, &mut mode, &mut input).is_none());
    t.execute_todo_action(Action::DeleteTodo, &mut mode, &mut input);
    assert_eq!(mode, InputMode::TodoPopup);
    t.execute_todo_action(Action::GotoBottom, &mut mode, &mut input);
    assert_eq!(t.cursor, 0);
}

fn plain_key(code: KeyCode) -> KeyEvent {
    KeyEvent::new(code, KeyModifiers::empty())
}

#[test]
fn todo_add_dialog() {
    let mut mode = InputMode::AddTodo { parent_id: Some("p".to_string()) };
    let mut input = TextInput::new();
    assert!(handle_add_todo_key(&plain_key(KeyCode::Char('h')), &mut mode, &mut input).is_none());
    assert!(handle_add_todo_key(&plain_key(KeyCode::Char('i')), &mut mode, &mut input).is_none());
    match handle_add_todo_key(&plain_key(KeyCode::Enter), &mut mode, &mut input) {
        Some(AsyncAction::CreateTodo { title, description, parent_id }) => {
            assert_eq!(title, "hi");
            assert_eq!(description, None);
            assert_eq!(parent_id, Some("p".to_string()));
        },
        other => panic!("unexpected {:?}", other),
    }
    assert_eq!(mode, InputMode::TodoPopup);
    assert_eq!(input.content(), "");
    let mut mode = InputMode::AddTodo { parent_id: None };
    assert!(handle_add_todo_key(&plain_key(KeyCode::Enter), &mut mode, &mut input).is_none());
    assert_eq!(mode, InputMode::TodoPopup);
}

#[test]
fn todo_edit_dialogs() {
    let mut mode = InputMode::EditTodo { todo_id: "t".to_string() };
    let mut input = TextInput::with_content("new");
    match handle_edit_todo_key(&plain_key(KeyCode::Enter), &mut mode, &mut input) {
        Some(AsyncAction::UpdateTodo { todo_id, title, description }) => {
            assert_eq!(todo_id, "t");
            assert_eq!(title, Some("new".to_string()));
            assert_eq!(description, None);
        },
        other => panic!("unexpected {:?}", other),
    }
    let mut mode = InputMode::EditTodoDescription { todo_id: "t".to_string() };
    let mut input = TextInput::new();
    match handle_edit_todo_description_key(&plain_key(KeyCode::Enter), &mut mode, &mut input) {
        Some(AsyncAction::UpdateTodo { todo_id, title, description }) => {
            assert_eq!(todo_id, "t");
            assert_eq!(title, None);
            assert_eq!(description, None);
        },
        other => panic!("unexpected {:?}", other),
    }
    let mut mode = InputMode::EditTodo { todo_id: "t".to_string() };
    let mut input = TextInput::with_content("x");
    assert!(handle_edit_todo_key(&plain_key(KeyCode::Esc), &mut mode, &mut input).is_none());
    assert_eq!(mode, InputMode::TodoPopup);
    assert_eq!(input.content(), "");
}

#[test]
fn todo_delete_confirmation() {
    let mut mode = InputMode::ConfirmDeleteTodo { todo_id: "t".to_string(), title: "T".to_string() };
    assert!(handle_confirm_delete_todo_key(&plain_key(KeyCode::Char('q')), &mut mode).is_none());
    match handle_confirm_delete_todo_key(&plain_key(KeyCode::Enter), &mut mode) {
        Some(AsyncAction::DeleteTodo { todo_id }) => assert_eq!(todo_id, "t"),
        other => panic!("unexpected {:?}", other),
    }
    assert!(handle_confirm_delete_todo_key(&plain_key(KeyCode::Char('n')), &mut mode).is_none());
    assert_eq!(mode, InputMode::TodoPopup);
}

fn session(id: &str, name: &str, branch: &str, is_shell: Option<bool>) -> SessionInfo {
    SessionInfo {
        id: id.to_string(),
        name: name.to_string(),
        repo_id: "repo".to_string(),
        branch: branch.to_string(),
        status: 0,
        is_shell,
    }
}

fn shell_repo() -> RepoState {
    let mut r = RepoState::new("repo".to_string());
    r.worktrees = vec![WorktreeInfo {
        repo_id: "repo".to_string(),
        branch: "main".to_string(),
        path: "/repo".to_string(),
        is_main: true,
        session_count: 2,
    }];
    r.expanded_worktrees = vec![false];
    r.sessions_by_worktree = vec![None];
    r.sessions = vec![session("work", "work", "main", Some(false)), session("sh", "__shell__", "main", Some(true))];
    r
}

#[test]
fn shell_switch_round_trip() {
    let r = shell_repo();
    let mut before = None;
    match r.switch_to_shell(&Some("work".to_string()), &mut before) {
        ShellSwitch::SwitchTo(id) => assert_eq!(id, "sh"),
        other => panic!("unexpected {:?}", other),
    }
    assert_eq!(before, Some("work".to_string()));
    match r.switch_to_shell(&Some("sh".to_string()), &mut before) {
        ShellSwitch::BackTo(id) => assert_eq!(id, "work"),
        other => panic!("unexpected {:?}", other),
    }
    assert_eq!(before, None);
    assert!(matches!(r.switch_to_shell(&Some("sh".to_string()), &mut before), ShellSwitch::AlreadyInShell));
    let mut gone = Some("deleted".to_string());
    assert!(matches!(r.switch_to_shell(&Some("sh".to_string()), &mut gone), ShellSwitch::PreviousGone));
    assert_eq!(gone, None);
}

#[test]
fn shell_switch_creates_missing_shell() {
    let mut r = shell_repo();
    r.sessions.pop();
    let mut before = Some("old".to_string());
    match r.switch_to_shell(&None, &mut before) {
        ShellSwitch::Create { repo_id, branch } => {
            assert_eq!(repo_id, "repo");
            assert_eq!(branch, "main");
        },
        other => panic!("unexpected {:?}", other),
    }
    assert_eq!(before, Some("old".to_string()));
    r.branch_idx = 5;
    assert!(matches!(r.switch_to_shell(&None, &mut before), ShellSwitch::NoWorktree));
}

fn texts(pieces: &[ccm::diff_line::StyledPiece]) -> Vec<String> {
    pieces.iter().map(|p| p.text.clone()).collect()
}

#[test]
fn word_diff_line_marks_changed_words() {
    let pieces = render_word_diff_line("let x = 2;", Some("let x = 1;"), true, false, false, &[]);
    assert_eq!(texts(&pieces), vec!["let", " ", "x", " ", "=", " ", "2;"]);
    let changed = &pieces[6].style;
    assert_eq!(*changed, PieceStyle { fg: Color::LightGreen, bold: true, underlined: true, reversed: false });
    assert_eq!(pieces[0].style, PieceStyle { fg: Color::Green, bold: false, underlined: false, reversed: false });
    let selected = render_word_diff_line("a b", Some("a c"), true, true, true, &[]);
    assert_eq!(texts(&selected), vec!["a", " ", "b"]);
    assert_eq!(selected[2].style, PieceStyle { fg: Color::LightGreen, bold: true, underlined: false, reversed: true });
}

#[test]
fn word_diff_line_uses_syntax_colours() {
    let spans = vec![
        SyntaxSpan { fg: Some(Color::Rgb(100, 100, 100)), text: "let".to_string() },
        SyntaxSpan { fg: None, text: " x".to_string() },
    ];
    let pieces = render_word_diff_line("let x", Some("let y"), true, false, false, &spans);
    assert_eq!(texts(&pieces), vec!["let", " ", "x"]);
    assert_eq!(pieces[0].style.fg, Color::Rgb(80, 130, 80));
    let unpaired = render_word_diff_line("let x", None, false, false, false, &spans);
    assert_eq!(texts(&unpaired), vec!["let", " x"]);
    assert_eq!(unpaired[0].style.fg, Color::Rgb(130, 80, 80));
    assert_eq!(unpaired[1].style.fg, Color::Red);
    let bare = render_word_diff_line("text", None, false, false, false, &[]);
    assert_eq!(texts(&bare), vec!["text"]);
    assert_eq!(bare[0].style.fg, Color::Red);
}

#[test]
fn word_diff_line_for_deletion_searches_added_words() {
    // The added line's words are looked for in the deleted line; "new" is not there.
    let pieces = render_word_diff_line("old text", Some("new text"), false, false, false, &[]);
    assert_eq!(texts(&pieces), vec!["old ", "text"]);
    assert_eq!(pieces[1].style.fg, Color::Red);
    let empty = render_word_diff_line("", Some("x"), false, false, false, &[]);
    assert_eq!(texts(&empty), vec![""]);
}

fn ui_state() -> ccm::ui_state::UiState {
    ccm::ui_state::UiState {
        focus: ccm::state::Focus::GitStatus,
        saved_focus_stack: Vec::new(),
        right_panel_view: ccm::state::RightPanelView::Terminal,
        input_mode: InputMode::Normal,
        prefix_mode: ccm::state::PrefixMode::Inactive,
        terminal_mode: ccm::state::TerminalMode::Normal,
        fullscreen: false,
        is_interactive: false,
        tree_view_enabled: true,
        has_active_session: false,
        should_quit: false,
        status_message: None,
        error_message: None,
        text_input: TextInput::new(),
    }
}

#[test]
fn git_status_keys() {
    let mut p = sample_panel();
    let mut ui = ui_state();
    p.cursor = 1; // staged file "a"
    assert!(matches!(p.handle_git_status_key(&mut ui, &plain_key(KeyCode::Char('s'))), UiCommand::Nothing));
    match p.handle_git_status_key(&mut ui, &plain_key(KeyCode::Char('u'))) {
        UiCommand::Run(AsyncAction::UnstageFile { file_path }) => assert_eq!(file_path, "a"),
        other => panic!("unexpected {:?}", other),
    }
    p.cursor = 4; // unstaged file "b"
    match p.handle_git_status_key(&mut ui, &plain_key(KeyCode::Char('s'))) {
        UiCommand::Run(AsyncAction::StageFile { file_path }) => assert_eq!(file_path, "b"),
        other => panic!("unexpected {:?}", other),
    }
    assert!(matches!(p.handle_git_status_key(&mut ui, &plain_key(KeyCode::Char('S'))), UiCommand::Run(AsyncAction::StageAll)));
    assert!(matches!(p.handle_git_status_key(&mut ui, &plain_key(KeyCode::Char('j'))), UiCommand::SelectNext));
    assert!(matches!(
        p.handle_git_status_key(&mut ui, &plain_key(KeyCode::Enter)),
        UiCommand::Run(AsyncAction::LoadDiffFiles)
    ));
    assert_eq!(ui.focus, Focus::DiffFiles);
    assert_eq!(ui.right_panel_view, RightPanelView::Diff);
    assert_eq!(ui.status_message.as_deref(), Some("Opening diff for: b"));
    assert_eq!(p.pending_diff_file, Some("b".to_string()));
    p.cursor = 3; // unstaged section header: Enter folds it
    assert!(matches!(p.handle_git_status_key(&mut ui, &plain_key(KeyCode::Enter)), UiCommand::Nothing));
    assert!(!p.expanded_sections.contains(GitSection::Unstaged));
    let mut ui = ui_state();
    assert!(matches!(p.handle_git_status_key(&mut ui, &plain_key(KeyCode::Tab)), UiCommand::Run(AsyncAction::LoadDiffFiles)));
    assert_eq!(ui.status_message.as_deref(), Some("Switching to Diff panel"));
    p.handle_git_status_key(&mut ui, &plain_key(KeyCode::Char('q')));
    assert_eq!(ui.focus, Focus::Sidebar);
}

#[test]
fn git_status_is_taken_in_section_order() {
    let mut p = sample_panel();
    p.cursor = 5;
    let rf = |path: &str, status: i32| ReportedFile { path: path.to_string(), status };
    p.set_status(vec![rf("s", 1)], vec![rf("u1", 2), rf("u2", 3)], vec![]);
    assert_eq!(p.cursor, 0);
    let got: Vec<(String, i32, GitSection)> = p.files.iter().map(|f| (f.path.clone(), f.status, f.section)).collect();
    assert_eq!(
        got,
        vec![
            ("s".to_string(), 1, GitSection::Staged),
            ("u1".to_string(), 2, GitSection::Unstaged),
            ("u2".to_string(), 3, GitSection::Unstaged)
        ]
    );
}

#[test]
fn sidebar_selection_and_repo_list() {
    let mut r = shell_repo();
    r.expanded_worktrees = vec![true];
    r.sessions_by_worktree = vec![Some(vec![
        session("work", "work", "main", Some(false)),
        session("sh", "__shell__", "main", Some(true)),
    ])];
    r.sidebar_cursor = 2;
    let sel = r.select_from_sidebar(&Some("work".to_string()));
    assert!(!sel.worktree_changed);
    assert_eq!(sel.attach, Some("sh".to_string()));
    assert_eq!(r.session_idx, 1);
    let sel = r.select_from_sidebar(&Some("sh".to_string()));
    assert_eq!(sel.attach, None);
    r.sidebar_cursor = 0;
    r.session_idx = 1;
    let sel = r.select_from_sidebar(&None);
    assert_eq!(r.session_idx, 0);
    assert_eq!(sel.attach, None);

    let mut repos = RepoList { order: vec!["r1".to_string(), "r2".to_string()], current: Some("r2".to_string()) };
    assert_eq!(repos.repo_idx(), 1);
    assert!(repos.switch_repo(1).is_none());
    assert!(repos.switch_repo(5).is_none());
    assert!(matches!(repos.switch_repo(0), Some(AsyncAction::RefreshBranches)));
    assert_eq!(repos.current, Some("r1".to_string()));
    assert_eq!(repos.repo_idx(), 0);
    repos.current = Some("gone".to_string());
    assert_eq!(repos.repo_idx(), 0);
}

#[test]
fn shell_switch_messages() {
    assert_eq!(ShellSwitch::NoWorktree.message(), "No worktree selected");
    assert_eq!(ShellSwitch::SwitchTo("x".to_string()).message(), "Switched to shell session");
    assert_eq!(ShellSwitch::BackTo("x".to_string()).message(), "Switched back from shell");
    assert_eq!(ShellSwitch::PreviousGone.message(), "Previous session no longer exists");
    assert_eq!(ShellSwitch::AlreadyInShell.message(), "Already in shell session");
    let c = ShellSwitch::Create { repo_id: "r".to_string(), branch: "b".to_string() };
    assert_eq!(c.message(), "Created shell session");
}

#[test]
fn repo_order_keeps_or_replaces_shown_repo() {
    let mut repos = RepoList { order: Vec::new(), current: None };
    repos.set_order(vec!["a".to_string(), "b".to_string()]);
    assert_eq!(repos.current, Some("a".to_string()));
    repos.current = Some("b".to_string());
    repos.set_order(vec!["c".to_string(), "b".to_string()]);
    assert_eq!(repos.current, Some("b".to_string()));
    assert_eq!(repos.repo_idx(), 1);
    repos.set_order(vec!["c".to_string()]);
    assert_eq!(repos.current, Some("c".to_string()));
    repos.set_order(Vec::new());
    assert_eq!(repos.current, None);
}

#[test]
fn todo_lines_show_depth_box_and_description() {
    let mut items = vec![todo("a", None, 0), todo("b", Some("a"), 0), todo("c", Some("b"), 0)];
    items[1].completed = true;
    items[1].description = Some("details".to_string());
    items[2].description = Some(String::new());
    let mut t = TodoState { items, display_order: Vec::new(), cursor: 1, scroll_offset: 0, show_completed: true };
    t.rebuild_todo_display_order();
    let rows = ccm::views::todo_rows(&t);
    let texts: Vec<String> = rows.iter().map(|r| r.text.clone()).collect();
    assert_eq!(
        texts,
        vec![
            "[ ] title a".to_string(),
            "  [x] title b (details)".to_string(),
            "    [ ] title c".to_string()
        ]
    );
    assert!(rows[1].under_cursor && !rows[0].under_cursor);
    assert!(rows[1].completed);
}

#[test]
fn git_pull_and_push() {
    let mut p = sample_panel();
    let mut ui = ui_state();
    assert!(matches!(p.handle_git_status_key(&mut ui, &plain_key(KeyCode::Char('p'))), UiCommand::Run(AsyncAction::GitPull)));
    assert!(matches!(p.handle_git_status_key(&mut ui, &plain_key(KeyCode::Char('P'))), UiCommand::Run(AsyncAction::GitPush)));
    assert!(ccm::git_panel::git_sync_done(&mut ui, true, true, "Already up to date.".to_string()));
    assert_eq!(ui.status_message, Some("Already up to date.".to_string()));
    assert!(!ccm::git_panel::git_sync_done(&mut ui, false, true, "Pushed".to_string()));
    assert!(!ccm::git_panel::git_sync_done(&mut ui, true, false, "rejected".to_string()));
    assert_eq!(ui.error_message, Some("rejected".to_string()));
}

#[test]
fn new_todo_items_are_listed_anew() {
    let mut t = TodoState { items: Vec::new(), display_order: Vec::new(), cursor: 0, scroll_offset: 0, show_completed: false };
    t.set_items(vec![todo("b", Some("a"), 0), todo("a", None, 0)]);
    assert_eq!(t.display_order, vec![1, 0]);
}

#[test]
fn deleted_line_pieces_spell_the_line() {
    for (content, paired) in [
        ("let x = 1;", "let x = 2;"),
        ("  fn  old(a, b)  ", "fn new(a)"),
        ("gone", "totally different words"),
        ("x y x", "x"),
        ("", ""),
    ] {
        let pieces = render_word_diff_line(content, Some(paired), false, true, true, &[]);
        assert_eq!(texts(&pieces).concat(), content);
    }
}
