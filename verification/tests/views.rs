use ccm::diff_nav::LineComment;
use ccm::git_panel::GitPanel;
use ccm::repo::{RepoState, SessionInfo, WorktreeInfo};
use ccm::state::{default_expanded_git_sections, GitSection, GitStatusFile};
use ccm::overlays::{centered_popup, Area};
use ccm::views::{git_panel_rows, keep_cursor_visible, sidebar_tree_rows, GitRow, Highlight, TreeRow};
use ccm::state::{DeleteTarget, InputMode};

fn session(id: &str, name: &str, status: i32) -> SessionInfo {
    SessionInfo {
        id: id.to_string(),
        name: name.to_string(),
        repo_id: "repo".to_string(),
        branch: "main".to_string(),
        status,
        is_shell: Some(false),
    }
}

fn worktree(branch: &str, is_main: bool, session_count: i32) -> WorktreeInfo {
    WorktreeInfo {
        repo_id: "repo".to_string(),
        branch: branch.to_string(),
        path: format!("/wt/{}", branch),
        is_main,
        session_count,
    }
}

fn tree_repo() -> RepoState {
    let mut r = RepoState::new("repo".to_string());
    r.worktrees = vec![worktree("main", true, 2), worktree("feature", false, 3)];
    r.expanded_worktrees = vec![true, false];
    r.sessions_by_worktree = vec![Some(vec![session("s1", "one", 1), session("s2", "two", 0)]), None];
    r
}

#[test]
fn tree_rows_follow_the_outline() {
    let mut repo = tree_repo();
    repo.sidebar_cursor = 2;
    let rows = sidebar_tree_rows(&repo, true, &Some("s1".to_string()));
    assert_eq!(rows.len(), 4);
    match &rows[0] {
        TreeRow::Worktree { highlight, expanded, is_main, branch, session_count } => {
            assert_eq!(*highlight, Highlight::Plain);
            assert!(*expanded);
            assert!(*is_main);
            assert_eq!(branch, "main");
            assert_eq!(*session_count, 2);
        },
        other => panic!("unexpected {:?}", other),
    }
    match &rows[1] {
        TreeRow::Session { highlight, attached, running, name } => {
            assert_eq!(*highlight, Highlight::Plain);
            assert!(*attached);
            assert!(*running);
            assert_eq!(name, "one");
        },
        other => panic!("unexpected {:?}", other),
    }
    match &rows[2] {
        TreeRow::Session { highlight, attached, running, name } => {
            assert_eq!(*highlight, Highlight::FocusedCursor);
            assert!(!*attached);
            assert!(!*running);
            assert_eq!(name, "two");
        },
        other => panic!("unexpected {:?}", other),
    }
    match &rows[3] {
        TreeRow::Worktree { branch, session_count, expanded, .. } => {
            assert_eq!(branch, "feature");
            assert_eq!(*session_count, 3);
            assert!(!*expanded);
        },
        other => panic!("unexpected {:?}", other),
    }
    repo.sidebar_cursor = 3;
    let unfocused = sidebar_tree_rows(&repo, false, &None);
    assert!(matches!(unfocused[3], TreeRow::Worktree { highlight: Highlight::Cursor, .. }));
    assert!(matches!(unfocused[1], TreeRow::Session { attached: false, .. }));
}

fn gfile(path: &str, section: GitSection) -> GitStatusFile {
    GitStatusFile { path: path.to_string(), status: 2, section }
}

#[test]
fn git_rows_group_files_by_section() {
    let mut panel = GitPanel {
        files: vec![gfile("c", GitSection::Untracked), gfile("a", GitSection::Staged), gfile("d", GitSection::Staged)],
        expanded_sections: default_expanded_git_sections(),
        cursor: 1,
        pending_diff_file: None,
    };
    let comments = vec![
        LineComment { id: "1".to_string(), file_path: "a".to_string(), line_number: 3, line_type: 1, comment: "x".to_string() },
        LineComment { id: "2".to_string(), file_path: "a".to_string(), line_number: 9, line_type: 1, comment: "y".to_string() },
    ];
    let rows = git_panel_rows(&panel, &comments, true);
    assert_eq!(rows.len(), 5);
    assert!(matches!(rows[0], GitRow::Section { section: GitSection::Staged, file_count: 2, highlight: Highlight::Plain, .. }));
    match &rows[1] {
        GitRow::File { highlight, path, status, comment_count } => {
            assert_eq!(*highlight, Highlight::FocusedCursor);
            assert_eq!(path, "a");
            assert_eq!(*status, 2);
            assert_eq!(*comment_count, 2);
        },
        other => panic!("unexpected {:?}", other),
    }
    assert!(matches!(&rows[2], GitRow::File { comment_count: 0, .. }));
    assert!(matches!(rows[3], GitRow::Section { section: GitSection::Untracked, file_count: 1, .. }));

    panel.files.clear();
    let empty = git_panel_rows(&panel, &comments, true);
    assert_eq!(empty.len(), 1);
    assert!(matches!(empty[0], GitRow::NoChanges));
}

#[test]
fn scrolling_keeps_the_cursor_in_view() {
    // In view: the first row stays.
    assert_eq!(keep_cursor_visible(5, 3, 10, 40), 3);
    // Above the window: the window starts at the cursor.
    assert_eq!(keep_cursor_visible(2, 8, 10, 40), 2);
    // Below the window: the cursor is centred.
    assert_eq!(keep_cursor_visible(25, 3, 10, 40), 20);
    // Never past the last full window.
    assert_eq!(keep_cursor_visible(39, 3, 10, 40), 30);
    // A list shorter than the window does not scroll.
    assert_eq!(keep_cursor_visible(4, 2, 10, 6), 0);
}

#[test]
fn comment_box_lines_wrap_at_fifty() {
    let text: String = "x".repeat(120);
    let lines = ccm::overlays::comment_lines(&text);
    assert_eq!(lines.len(), 3);
    assert_eq!(lines[0].chars().count(), 50);
    assert_eq!(lines[2].chars().count(), 20);
    assert_eq!(lines.concat(), text);
    assert!(ccm::overlays::comment_lines("").is_empty());
    assert_eq!(ccm::overlays::comment_lines("short"), vec!["short".to_string()]);
    let exact = "é".repeat(50);
    assert_eq!(ccm::overlays::comment_lines(&exact), vec![exact.clone()]);
}

#[test]
fn long_paths_are_shortened_for_comment_boxes() {
    assert_eq!(ccm::overlays::shortened_path("src/main.rs"), "src/main.rs");
    let long = "a/very/long/directory/structure/file.rs";
    assert_eq!(ccm::overlays::shortened_path(long), format!("...{}", &long[long.len() - 27..]));
    let thirty = "x".repeat(30);
    assert_eq!(ccm::overlays::shortened_path(&thirty), thirty);
}

#[test]
fn multibyte_paths_are_shortened_by_bytes() {
    // 36 bytes, 14 characters: over 30 bytes, so shortened; the cut falls on
    // a boundary and keeps the last 27 bytes.
    let path = format!("{}abc", "中".repeat(11));
    assert_eq!(ccm::overlays::shortened_path(&path), format!("...{}abc", "中".repeat(8)));
    // 34 bytes: 27 bytes from the end falls inside a character, so the cut
    // moves to the next boundary.
    let path = format!("{}a", "中".repeat(11));
    assert_eq!(ccm::overlays::shortened_path(&path), format!("...{}a", "中".repeat(8)));
    // 30 bytes in 10 characters: shown whole.
    let path = "中".repeat(10);
    assert_eq!(ccm::overlays::shortened_path(&path), path);
}

#[test]
fn file_change_counts() {
    assert_eq!(ccm::overlays::file_stats(3, 1), " +3 -1");
    assert_eq!(ccm::overlays::file_stats(0, 7), " +0 -7");
    assert_eq!(ccm::overlays::file_stats(0, 0), "");
}

fn plain_ui() -> ccm::ui_state::UiState {
    ccm::ui_state::UiState {
        focus: ccm::state::Focus::Sidebar,
        saved_focus_stack: Vec::new(),
        right_panel_view: ccm::state::RightPanelView::Terminal,
        input_mode: ccm::state::InputMode::Normal,
        prefix_mode: ccm::state::PrefixMode::Inactive,
        terminal_mode: ccm::state::TerminalMode::Normal,
        fullscreen: false,
        is_interactive: false,
        tree_view_enabled: true,
        has_active_session: false,
        should_quit: false,
        status_message: None,
        error_message: None,
        text_input: ccm::text_input::TextInput::new(),
    }
}

#[test]
fn status_bar_prefers_prefix_then_error_then_status() {
    let mut u = plain_ui();
    let help = ccm::overlays::status_line(&u);
    assert_eq!(help.kind, ccm::overlays::StatusKind::Help);
    assert!(help.text.starts_with("[Ctrl+s] Prefix | [j/k] Move"));
    u.focus = ccm::state::Focus::Terminal;
    u.terminal_mode = ccm::state::TerminalMode::Insert;
    assert_eq!(ccm::overlays::status_line(&u).text, "[Esc] Normal mode | Keys sent to terminal");
    u.status_message = Some("Saved".to_string());
    let st = ccm::overlays::status_line(&u);
    assert_eq!((st.kind, st.text.as_str()), (ccm::overlays::StatusKind::Status, "Saved"));
    u.error_message = Some("Boom".to_string());
    let er = ccm::overlays::status_line(&u);
    assert_eq!((er.kind, er.text.as_str()), (ccm::overlays::StatusKind::Error, "Boom"));
    u.prefix_mode = ccm::state::PrefixMode::WaitingForCommand;
    let pf = ccm::overlays::status_line(&u);
    assert_eq!(pf.kind, ccm::overlays::StatusKind::Prefix);
    assert!(pf.text.starts_with("Prefix: [b] Branches"));
}

#[test]
fn tabs_are_numbered_up_to_nine() {
    assert_eq!(ccm::overlays::tab_title(0, "alpha"), "1:alpha");
    assert_eq!(ccm::overlays::tab_title(8, "beta"), "9:beta");
    assert_eq!(ccm::overlays::tab_title(9, "gamma"), "gamma");
}

#[test]
fn confirm_dialogs_ask_the_right_question() {
    let q = ccm::overlays::confirm_question(&InputMode::ConfirmDelete(DeleteTarget::Worktree {
        repo_id: "r".to_string(),
        branch: "feature".to_string(),
    }));
    assert_eq!(q, Some((" Delete Worktree ".to_string(), "Delete worktree 'feature'?".to_string())));
    let q = ccm::overlays::confirm_question(&InputMode::ConfirmDelete(DeleteTarget::Session {
        session_id: "s".to_string(),
        name: "work".to_string(),
    }));
    assert_eq!(q.unwrap().1, "Delete session 'work'?");
    let q = ccm::overlays::confirm_question(&InputMode::ConfirmDeleteBranch("old".to_string()));
    assert_eq!(q.unwrap().1, "Worktree deleted. Delete branch 'old'?");
    let one = ccm::overlays::confirm_question(&InputMode::ConfirmDeleteWorktreeSessions {
        repo_id: "r".to_string(),
        branch: "b".to_string(),
        session_count: 1,
    });
    assert_eq!(one.unwrap().1, "Worktree 'b' has 1 active session.");
    let two = ccm::overlays::confirm_question(&InputMode::ConfirmDeleteWorktreeSessions {
        repo_id: "r".to_string(),
        branch: "b".to_string(),
        session_count: 2,
    });
    assert_eq!(two.unwrap(), (" Delete Sessions? ".to_string(), "Worktree 'b' has 2 active sessions.".to_string()));
    let todo = ccm::overlays::confirm_question(&InputMode::ConfirmDeleteTodo { todo_id: "t".to_string(), title: "Ship".to_string() });
    assert_eq!(todo.unwrap().1, "Delete TODO: Ship");
    assert_eq!(ccm::overlays::confirm_question(&InputMode::Normal), None);
}

#[test]
fn popups_are_centred() {
    let area = Area { x: 10, y: 5, width: 100, height: 40 };
    assert_eq!(centered_popup(area, 50, 5), Area { x: 35, y: 22, width: 50, height: 5 });
    let narrow = Area { x: 0, y: 0, width: 30, height: 3 };
    assert_eq!(centered_popup(narrow, 50, 5), Area { x: 2, y: 0, width: 26, height: 5 });
}

#[test]
fn main_area_shows_dialog_then_fullscreen_then_split() {
    let mut u = plain_ui();
    assert_eq!(ccm::overlays::screen(&u, false), ccm::overlays::Screen::Split(ccm::state::RightPanelView::Terminal));
    u.fullscreen = true;
    assert_eq!(ccm::overlays::screen(&u, false), ccm::overlays::Screen::Split(ccm::state::RightPanelView::Terminal));
    u.focus = ccm::state::Focus::Terminal;
    assert_eq!(ccm::overlays::screen(&u, false), ccm::overlays::Screen::TerminalFullscreen);
    u.focus = ccm::state::Focus::DiffFiles;
    u.right_panel_view = ccm::state::RightPanelView::Diff;
    assert_eq!(ccm::overlays::screen(&u, true), ccm::overlays::Screen::DiffFullscreen);
    assert_eq!(ccm::overlays::screen(&u, false), ccm::overlays::Screen::Split(ccm::state::RightPanelView::Diff));
    u.input_mode = InputMode::TodoPopup;
    assert_eq!(ccm::overlays::screen(&u, true), ccm::overlays::Screen::Dialog);
}

#[test]
fn diff_rows_interleave_comment_boxes() {
    let mut d = ccm::diff_nav::DiffState::new();
    d.files = vec!["src/a.rs".to_string(), "src/b.rs".to_string()];
    d.expanded = vec![true, false];
    d.file_lines = vec![
        Some(vec![
            ccm::diff_nav::DiffLine { old_lineno: Some(9), new_lineno: Some(10), line_type: 3 },
            ccm::diff_nav::DiffLine { old_lineno: Some(4), new_lineno: None, line_type: 2 },
        ]),
        None,
    ];
    let long = "y".repeat(60);
    let comments = vec![LineComment {
        id: "c1".to_string(),
        file_path: "src/a.rs".to_string(),
        line_number: 4,
        line_type: 2,
        comment: long,
    }];
    let current = ccm::state::DiffItem::Line(0, 1);
    let rows = ccm::views::diff_rows(&d, &comments, current, true);
    assert_eq!(
        rows,
        vec![
            ccm::views::DiffRow::File { highlight: Highlight::Plain, file: 0, expanded: true, comment_count: 1 },
            ccm::views::DiffRow::Line { highlight: Highlight::Plain, file: 0, line: 0, line_type: 3, number: 10, commented: false },
            ccm::views::DiffRow::Line { highlight: Highlight::FocusedCursor, file: 0, line: 1, line_type: 2, number: 4, commented: true },
            ccm::views::DiffRow::CommentTop { file: 0, number: 4 },
            ccm::views::DiffRow::CommentText { comment: 0, part: 0 },
            ccm::views::DiffRow::CommentText { comment: 0, part: 1 },
            ccm::views::DiffRow::CommentBottom,
            ccm::views::DiffRow::File { highlight: Highlight::Plain, file: 1, expanded: false, comment_count: 0 },
        ]
    );
    let rows = ccm::views::diff_rows(&d, &comments, ccm::state::DiffItem::File(1), false);
    assert_eq!(rows[7], ccm::views::DiffRow::File { highlight: Highlight::Cursor, file: 1, expanded: false, comment_count: 0 });
}

#[test]
fn flat_lists_highlight_the_selection() {
    let mut repo = tree_repo();
    repo.branch_idx = 1;
    repo.sessions = vec![session("s1", "one", 1), session("s2", "two", 0)];
    repo.session_idx = 1;
    let wts = ccm::views::worktree_list_rows(&repo, true);
    assert!(matches!(&wts[0], TreeRow::Worktree { highlight: Highlight::Plain, session_count: 2, is_main: true, .. }));
    assert!(matches!(&wts[1], TreeRow::Worktree { highlight: Highlight::FocusedCursor, session_count: 3, .. }));
    let ss = ccm::views::session_list_rows(&repo, false, &Some("s2".to_string()));
    assert!(matches!(&ss[0], TreeRow::Session { highlight: Highlight::Plain, attached: false, running: true, .. }));
    assert!(matches!(&ss[1], TreeRow::Session { highlight: Highlight::Cursor, attached: true, running: false, .. }));
    assert_eq!(ccm::views::sessions_title(&repo, true), " Sessions (feature) [*] ");
    repo.branch_idx = 7;
    assert_eq!(ccm::views::sessions_title(&repo, false), " Sessions (?) ");
}

#[test]
fn add_worktree_dialog_lines() {
    let mut d = ccm::input::AddWorktreeDialog { input: Vec::new(), selected: 1 };
    let branches = vec!["old".to_string(), "spare".to_string()];
    let l = ccm::overlays::add_worktree_lines(&d, Some("main"), &branches);
    assert_eq!(l.base, "Base: main (new branch will be created from here)");
    assert_eq!(l.branches, vec!["  ○ old".to_string(), "> ○ spare".to_string()]);
    assert_eq!(l.input, "  New: New branch: (type to create new)");
    d.input = vec!['x', 'y'];
    let l = ccm::overlays::add_worktree_lines(&d, None, &branches);
    assert_eq!(l.base, "Base: HEAD (new branch will be created from HEAD)");
    assert_eq!(l.branches[1], "  ○ spare");
    assert_eq!(l.input, "> New: xy");
}

#[test]
fn comment_dialog_field_and_height() {
    let text = "first\r\nsecond\n\nlast\r";
    let expected: Vec<String> = text.lines().map(|l| l.to_string()).collect();
    assert_eq!(ccm::overlays::split_lines(text), expected);
    assert_eq!(ccm::overlays::split_lines("a\n"), vec!["a".to_string()]);
    assert!(ccm::overlays::split_lines("").is_empty());
    assert_eq!(
        ccm::overlays::comment_field_lines("one\ntwo"),
        vec!["> one".to_string(), "  two".to_string()]
    );
    assert_eq!(ccm::overlays::comment_field_lines(""), vec!["> ".to_string()]);
    assert_eq!(ccm::overlays::comment_dialog_height(0, 40), 7);
    assert_eq!(ccm::overlays::comment_dialog_height(3, 40), 9);
    assert_eq!(ccm::overlays::comment_dialog_height(50, 20), 16);
    assert_eq!(ccm::overlays::comment_dialog_height(1, 2), 0);
}

#[test]
fn without_comments_the_highlight_is_the_cursor_row() {
    let mut d = ccm::diff_nav::DiffState::new();
    d.files = vec!["a".to_string(), "b".to_string()];
    d.expanded = vec![true, true];
    d.file_lines = vec![
        Some(vec![ccm::diff_nav::DiffLine { old_lineno: None, new_lineno: Some(1), line_type: 1 }]),
        Some(vec![
            ccm::diff_nav::DiffLine { old_lineno: Some(3), new_lineno: None, line_type: 2 },
            ccm::diff_nav::DiffLine { old_lineno: Some(4), new_lineno: Some(4), line_type: 3 },
        ]),
    ];
    for cursor in 0..5 {
        d.cursor = cursor;
        let current = d.current_diff_item();
        let rows = ccm::views::diff_rows(&d, &[], current, true);
        let lit: Vec<usize> = rows
            .iter()
            .enumerate()
            .filter(|(_, r)| {
                matches!(
                    r,
                    ccm::views::DiffRow::File { highlight: Highlight::FocusedCursor, .. }
                        | ccm::views::DiffRow::Line { highlight: Highlight::FocusedCursor, .. }
                )
            })
            .map(|(i, _)| i)
            .collect();
        assert_eq!(lit, vec![cursor]);
    }
}

#[test]
fn interface_starts_on_the_sidebar() {
    let u = ccm::ui_state::UiState::new(true);
    assert_eq!(u.focus, ccm::state::Focus::Sidebar);
    assert!(u.saved_focus_stack.is_empty());
    assert!(u.tree_view_enabled);
    assert_eq!(u.input_mode, InputMode::Normal);
    assert!(u.text_input.is_empty());
    assert!(!ccm::ui_state::UiState::new(false).tree_view_enabled);
}

fn clean_flags() -> ccm::state::DirtyFlags {
    ccm::state::DirtyFlags { sidebar: false, terminal: false, status_bar: false, full_redraw: false }
}

#[test]
fn moving_the_selection_follows_the_focus() {
    let mut ui = plain_ui();
    let mut repo = tree_repo();
    repo.sessions = vec![session("s1", "one", 1), session("s2", "two", 0)];
    let mut git = GitPanel {
        files: vec![gfile("a", GitSection::Staged)],
        expanded_sections: default_expanded_git_sections(),
        cursor: 0,
        pending_diff_file: None,
    };
    let mut diff = ccm::diff_nav::DiffState::new();
    let mut dirty = clean_flags();
    let active = Some("s1".to_string());

    // Sidebar: onto the second session of "main", which the terminal should attach to.
    repo.sidebar_cursor = 1;
    let (action, attach) = ccm::input::move_selection(&ui, false, &mut repo, &mut git, &mut diff, &mut dirty, &active);
    assert_eq!(repo.sidebar_cursor, 2);
    assert_eq!((repo.branch_idx, repo.session_idx), (0, 1));
    assert_eq!(attach, Some("s2".to_string()));
    assert!(action.is_none());
    assert!(dirty.sidebar);
    // Down again: onto the "feature" worktree, another worktree.
    let (action, attach) = ccm::input::move_selection(&ui, false, &mut repo, &mut git, &mut diff, &mut dirty, &active);
    assert_eq!(repo.branch_idx, 1);
    assert!(matches!(action, Some(ccm::state::AsyncAction::LoadGitStatus)));
    assert!(attach.is_none());
    // The last row: nothing moves.
    let mut d2 = clean_flags();
    let r = ccm::input::move_selection(&ui, false, &mut repo, &mut git, &mut diff, &mut d2, &active);
    assert_eq!((r.0.is_none(), r.1.is_none()), (true, true));
    assert_eq!(repo.sidebar_cursor, 3);
    assert_eq!(d2, clean_flags());

    // Git panel: one section with one file, two rows.
    ui.focus = ccm::state::Focus::GitStatus;
    let mut d3 = clean_flags();
    ccm::input::move_selection(&ui, false, &mut repo, &mut git, &mut diff, &mut d3, &active);
    assert_eq!(git.cursor, 1);
    assert!(d3.sidebar);
    ccm::input::move_selection(&ui, false, &mut repo, &mut git, &mut diff, &mut d3, &active);
    assert_eq!(git.cursor, 1);
    ccm::input::move_selection(&ui, true, &mut repo, &mut git, &mut diff, &mut d3, &active);
    assert_eq!(git.cursor, 0);

    // Diff view without files: nothing to move to.
    ui.focus = ccm::state::Focus::DiffFiles;
    let mut d4 = clean_flags();
    ccm::input::move_selection(&ui, false, &mut repo, &mut git, &mut diff, &mut d4, &active);
    assert_eq!(diff.cursor, 0);
    assert_eq!(d4, clean_flags());

    // The terminal has no list to move in.
    ui.focus = ccm::state::Focus::Terminal;
    let before = repo.sidebar_cursor;
    ccm::input::move_selection(&ui, true, &mut repo, &mut git, &mut diff, &mut d4, &active);
    assert_eq!(repo.sidebar_cursor, before);
}

#[test]
fn entering_the_terminal_needs_a_session() {
    let mut u = plain_ui();
    assert!(!u.enter_terminal());
    assert_eq!(u.focus, ccm::state::Focus::Sidebar);
    u.has_active_session = true;
    assert!(u.enter_terminal());
    assert_eq!(u.focus, ccm::state::Focus::Terminal);
    assert_eq!(u.terminal_mode, ccm::state::TerminalMode::Insert);
}
