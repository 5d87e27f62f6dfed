use ccm::actions::Action;
use ccm::keys::{KeyCode, KeyEvent, KeyModifiers};
use ccm::repo::{DaemonEvent, DeleteRequest, RepoState, SessionInfo, WorktreeInfo};
use ccm::state::{
    AsyncAction, DeleteTarget, DirtyFlags, Focus, InputMode, PrefixMode, RightPanelView, SidebarItem,
    TerminalMode,
};
use ccm::text_input::TextInput;
use ccm::ui_state::{UiCommand, UiState};

fn session(id: &str, name: &str, branch: &str, status: i32) -> SessionInfo {
    SessionInfo {
        id: id.to_string(),
        name: name.to_string(),
        repo_id: "repo".to_string(),
        branch: branch.to_string(),
        status,
        is_shell: Some(false),
    }
}

fn worktree(branch: &str, is_main: bool, path: &str, session_count: i32) -> WorktreeInfo {
    WorktreeInfo {
        repo_id: "repo".to_string(),
        branch: branch.to_string(),
        path: path.to_string(),
        is_main,
        session_count,
    }
}

fn clean() -> DirtyFlags {
    DirtyFlags { sidebar: false, terminal: false, status_bar: false, full_redraw: false }
}

/// main (expanded, two sessions loaded), feature (collapsed, not loaded), fix (collapsed).
fn sample_repo() -> RepoState {
    let mut r = RepoState::new("repo".to_string());
    r.worktrees = vec![
        worktree("main", true, "/repo", 2),
        worktree("feature", false, "/wt/feature", 1),
        worktree("fix", false, "", 0),
    ];
    r.expanded_worktrees = vec![true, false, false];
    r.sessions_by_worktree =
        vec![Some(vec![session("s1", "one", "main", 0), session("s2", "two", "main", 1)]), None, None];
    r.sessions = vec![session("s1", "one", "main", 0), session("s2", "two", "main", 1)];
    r
}

fn names(sessions: &[SessionInfo]) -> Vec<String> {
    sessions.iter().map(|s| s.name.clone()).collect()
}

fn branches(repo: &RepoState) -> Vec<String> {
    repo.worktrees.iter().map(|w| w.branch.clone()).collect()
}

#[test]
fn sidebar_rows_and_items() {
    let mut r = sample_repo();
    assert_eq!(r.calculate_sidebar_total(), 5);
    assert_eq!(r.current_sidebar_item(), SidebarItem::Worktree(0));
    r.sidebar_cursor = 2;
    assert_eq!(r.current_sidebar_item(), SidebarItem::Session(0, 1));
    r.sidebar_cursor = 3;
    assert_eq!(r.current_sidebar_item(), SidebarItem::Worktree(1));
    r.sidebar_cursor = 5;
    assert_eq!(r.current_sidebar_item(), SidebarItem::Empty);
}

#[test]
fn sidebar_expand_loads_sessions_once() {
    let mut r = sample_repo();
    let mut dirty = clean();
    r.sidebar_cursor = 3;
    assert!(matches!(
        r.toggle_sidebar_expand(&mut dirty),
        Some(AsyncAction::LoadWorktreeSessions { wt_idx: 1 })
    ));
    assert_eq!(r.expanded_worktrees, vec![true, true, false]);
    assert_eq!(dirty, clean());
    r.sidebar_cursor = 0;
    assert!(r.toggle_sidebar_expand(&mut dirty).is_none());
    assert_eq!(r.expanded_worktrees, vec![false, true, false]);
    assert!(dirty.sidebar);
}

#[test]
fn sidebar_expand_off_a_worktree_does_nothing() {
    let mut r = sample_repo();
    let mut dirty = clean();
    r.sidebar_cursor = 1;
    assert!(r.toggle_sidebar_expand(&mut dirty).is_none());
    assert_eq!(r.expanded_worktrees, vec![true, false, false]);
    assert_eq!(dirty, clean());
}

#[test]
fn delete_requests() {
    let mut r = sample_repo();
    assert!(matches!(r.request_delete(Focus::Terminal), DeleteRequest::Nothing));
    match r.request_delete(Focus::Sidebar) {
        DeleteRequest::Refused(msg) => assert_eq!(msg, "Cannot remove main worktree"),
        other => panic!("unexpected {:?}", other),
    }
    r.sidebar_cursor = 2;
    match r.request_delete(Focus::Sidebar) {
        DeleteRequest::Confirm(InputMode::ConfirmDelete(DeleteTarget::Session { session_id, name })) => {
            assert_eq!(session_id, "s2");
            assert_eq!(name, "two");
        },
        other => panic!("unexpected {:?}", other),
    }
    r.sidebar_cursor = 3;
    match r.request_delete(Focus::Sidebar) {
        DeleteRequest::Confirm(InputMode::ConfirmDeleteWorktreeSessions { repo_id, branch, session_count }) => {
            assert_eq!(repo_id, "repo");
            assert_eq!(branch, "feature");
            assert_eq!(session_count, 1);
        },
        other => panic!("unexpected {:?}", other),
    }
    r.sidebar_cursor = 4;
    match r.request_delete(Focus::Sidebar) {
        DeleteRequest::Refused(msg) => assert_eq!(msg, "No worktree to remove"),
        other => panic!("unexpected {:?}", other),
    }
    r.worktrees[2].path = "/wt/fix".to_string();
    match r.request_delete(Focus::Sidebar) {
        DeleteRequest::Confirm(InputMode::ConfirmDelete(DeleteTarget::Worktree { repo_id, branch })) => {
            assert_eq!(repo_id, "repo");
            assert_eq!(branch, "fix");
        },
        other => panic!("unexpected {:?}", other),
    }
    r.sidebar_cursor = 9;
    assert!(matches!(r.request_delete(Focus::Sidebar), DeleteRequest::Nothing));
}

#[test]
fn created_session_joins_selected_worktree_only() {
    let mut r = sample_repo();
    let mut dirty = clean();
    let out = r.handle_daemon_event(DaemonEvent::SessionCreated(session("s3", "three", "main", 0)), None, &mut dirty);
    assert!(out.is_none());
    assert_eq!(names(&r.sessions), vec!["one", "two", "three"]);
    assert!(dirty.sidebar);
    let mut dirty = clean();
    r.handle_daemon_event(DaemonEvent::SessionCreated(session("s4", "four", "feature", 0)), None, &mut dirty);
    assert_eq!(r.sessions.len(), 3);
    assert_eq!(dirty, clean());
}

#[test]
fn destroyed_session_leaves_and_selection_is_clamped() {
    let mut r = sample_repo();
    r.session_idx = 1;
    let mut dirty = clean();
    r.handle_daemon_event(DaemonEvent::SessionDestroyed { session_id: "s2".to_string() }, None, &mut dirty);
    assert_eq!(names(&r.sessions), vec!["one"]);
    assert_eq!(r.session_idx, 0);
    assert!(dirty.sidebar);
    let mut dirty = clean();
    r.handle_daemon_event(DaemonEvent::SessionDestroyed { session_id: "nope".to_string() }, None, &mut dirty);
    assert_eq!(r.sessions.len(), 1);
    assert_eq!(dirty, clean());
}

#[test]
fn renamed_session_takes_new_name() {
    let mut r = sample_repo();
    let mut dirty = clean();
    r.handle_daemon_event(
        DaemonEvent::SessionNameUpdated { session_id: "s1".to_string(), new_name: "uno".to_string() },
        None,
        &mut dirty,
    );
    assert_eq!(names(&r.sessions), vec!["uno", "two"]);
    assert!(dirty.sidebar);
    let mut dirty = clean();
    r.handle_daemon_event(
        DaemonEvent::SessionNameUpdated { session_id: "s1".to_string(), new_name: "uno".to_string() },
        None,
        &mut dirty,
    );
    assert_eq!(dirty, clean());
}

#[test]
fn status_change_reaches_list_and_tree() {
    let mut r = sample_repo();
    let mut dirty = clean();
    r.handle_daemon_event(
        DaemonEvent::SessionStatusChanged { session_id: "s2".to_string(), old_status: 1, new_status: 3 },
        None,
        &mut dirty,
    );
    assert_eq!(r.sessions[1].status, 3);
    assert_eq!(r.sessions_by_worktree[0].as_ref().unwrap()[1].status, 3);
    assert_eq!(r.sessions[0].status, 0);
    assert!(dirty.sidebar);
    let mut dirty = clean();
    r.handle_daemon_event(
        DaemonEvent::SessionStatusChanged { session_id: "s2".to_string(), old_status: 3, new_status: 3 },
        None,
        &mut dirty,
    );
    assert_eq!(dirty, clean());
}

#[test]
fn added_worktree_is_not_duplicated() {
    let mut r = sample_repo();
    let mut dirty = clean();
    r.handle_daemon_event(DaemonEvent::WorktreeAdded(worktree("new", false, "/wt/new", 0)), None, &mut dirty);
    assert_eq!(branches(&r), vec!["main", "feature", "fix", "new"]);
    assert_eq!(r.expanded_worktrees, vec![true, false, false, false]);
    assert!(r.sessions_by_worktree[3].is_none());
    assert!(dirty.sidebar);
    let mut dirty = clean();
    r.handle_daemon_event(DaemonEvent::WorktreeAdded(worktree("new", false, "/wt/new", 0)), None, &mut dirty);
    assert_eq!(r.worktrees.len(), 4);
    assert_eq!(dirty, clean());
    let mut other = worktree("elsewhere", false, "/x", 0);
    other.repo_id = "other".to_string();
    r.handle_daemon_event(DaemonEvent::WorktreeAdded(other), None, &mut dirty);
    assert_eq!(r.worktrees.len(), 4);
}

#[test]
fn removed_worktree_collapses_tree_and_clamps() {
    let mut r = sample_repo();
    r.branch_idx = 2;
    r.sidebar_cursor = 4;
    let mut dirty = clean();
    r.handle_daemon_event(
        DaemonEvent::WorktreeRemoved { repo_id: "repo".to_string(), branch: "fix".to_string() },
        None,
        &mut dirty,
    );
    assert_eq!(branches(&r), vec!["main", "feature"]);
    assert_eq!(r.branch_idx, 1);
    assert_eq!(r.sidebar_cursor, 1);
    assert_eq!(r.expanded_worktrees, vec![false, false]);
    assert!(r.sessions_by_worktree.iter().all(|s| s.is_none()));
    assert!(dirty.sidebar);
    let mut dirty = clean();
    r.handle_daemon_event(
        DaemonEvent::WorktreeRemoved { repo_id: "other".to_string(), branch: "main".to_string() },
        None,
        &mut dirty,
    );
    assert_eq!(r.worktrees.len(), 2);
    assert_eq!(dirty, clean());
}

#[test]
fn git_status_refresh_is_debounced() {
    let mut r = sample_repo();
    let mut dirty = clean();
    let ev = || DaemonEvent::GitStatusChanged { repo_id: "repo".to_string(), branch: "main".to_string() };
    assert!(matches!(r.handle_daemon_event(ev(), None, &mut dirty), Some(AsyncAction::LoadGitStatus)));
    assert!(r.handle_daemon_event(ev(), Some(499), &mut dirty).is_none());
    assert!(matches!(r.handle_daemon_event(ev(), Some(500), &mut dirty), Some(AsyncAction::LoadGitStatus)));
    let other = DaemonEvent::GitStatusChanged { repo_id: "repo".to_string(), branch: "feature".to_string() };
    assert!(r.handle_daemon_event(other, None, &mut dirty).is_none());
    assert_eq!(dirty, clean());
}

fn ui() -> UiState {
    UiState {
        focus: Focus::Sidebar,
        saved_focus_stack: Vec::new(),
        right_panel_view: RightPanelView::Terminal,
        input_mode: InputMode::Normal,
        prefix_mode: PrefixMode::Inactive,
        terminal_mode: TerminalMode::Normal,
        fullscreen: false,
        is_interactive: false,
        tree_view_enabled: true,
        has_active_session: true,
        should_quit: false,
        status_message: Some("old".to_string()),
        error_message: None,
        text_input: TextInput::new(),
    }
}

fn key(c: char) -> KeyEvent {
    KeyEvent::new(KeyCode::Char(c), KeyModifiers::empty())
}

#[test]
fn focus_save_and_restore() {
    let mut u = ui();
    assert!(!u.restore_focus());
    u.save_focus();
    u.focus = Focus::Terminal;
    assert!(u.restore_focus());
    assert_eq!(u.focus, Focus::Sidebar);
    assert!(u.saved_focus_stack.is_empty());
}

#[test]
fn cancel_input_restores_focus() {
    let mut u = ui();
    u.save_focus();
    u.focus = Focus::Branches;
    u.input_mode = InputMode::TodoPopup;
    u.text_input.insert('x');
    u.cancel_input();
    assert_eq!(u.input_mode, InputMode::Normal);
    assert_eq!(u.text_input.content(), "");
    assert_eq!(u.status_message, None);
    assert_eq!(u.focus, Focus::Sidebar);
}

#[test]
fn exit_terminal_leaves_fullscreen_first() {
    let mut u = ui();
    u.focus = Focus::Terminal;
    u.terminal_mode = TerminalMode::Insert;
    u.fullscreen = true;
    u.exit_terminal();
    assert!(!u.fullscreen);
    assert_eq!(u.focus, Focus::Terminal);
    u.exit_terminal();
    assert_eq!(u.focus, Focus::Sidebar);
    assert_eq!(u.terminal_mode, TerminalMode::Normal);
}

#[test]
fn prefix_actions() {
    let mut u = ui();
    u.focus = Focus::Terminal;
    assert!(matches!(u.execute_prefix_action(Action::FocusGitStatus), UiCommand::Run(AsyncAction::LoadGitStatus)));
    assert_eq!(u.focus, Focus::GitStatus);
    assert!(matches!(u.execute_prefix_action(Action::FocusSessions), UiCommand::Nothing));
    assert_eq!(u.focus, Focus::Sidebar);
    assert!(matches!(u.execute_prefix_action(Action::OpenTodo), UiCommand::Run(AsyncAction::LoadTodos)));
    assert_eq!(u.input_mode, InputMode::TodoPopup);
    assert_eq!(u.saved_focus_stack, vec![Focus::Sidebar]);
    assert!(matches!(u.execute_prefix_action(Action::AddWorktree), UiCommand::StartAddWorktree));
    assert_eq!(u.focus, Focus::Branches);
    assert!(matches!(u.execute_prefix_action(Action::FocusDiff), UiCommand::Run(AsyncAction::LoadDiffFiles)));
    assert_eq!(u.right_panel_view, RightPanelView::Diff);
    assert!(matches!(u.execute_prefix_action(Action::MoveUp), UiCommand::Nothing));
    assert_eq!(
        u.status_message.as_deref(),
        Some("Prefix: w=sidebar g=git v=diff t=terminal n=new d=delete r=refresh q=quit")
    );
    assert!(matches!(u.execute_prefix_action(Action::Quit), UiCommand::Nothing));
    assert!(u.should_quit);
}

#[test]
fn prefix_fullscreen_and_normal_mode() {
    let mut u = ui();
    u.has_active_session = false;
    u.execute_prefix_action(Action::ToggleFullscreen);
    assert!(!u.fullscreen);
    u.has_active_session = true;
    u.execute_prefix_action(Action::ToggleFullscreen);
    assert!(u.fullscreen);
    u.focus = Focus::Terminal;
    u.terminal_mode = TerminalMode::Insert;
    u.execute_prefix_action(Action::NormalMode);
    assert_eq!(u.terminal_mode, TerminalMode::Normal);
    assert!(matches!(u.execute_prefix_action(Action::FocusTerminal), UiCommand::Run(AsyncAction::ConnectStream)));
}

#[test]
fn navigation_keys() {
    let mut u = ui();
    assert!(matches!(u.handle_navigation_key(&key('3'), SidebarItem::Empty, true), UiCommand::SwitchRepo(2)));
    assert_eq!(u.status_message, None);
    assert!(matches!(u.handle_navigation_key(&key('j'), SidebarItem::Empty, true), UiCommand::SelectNext));
    assert!(matches!(
        u.handle_navigation_key(&KeyEvent::new(KeyCode::Up, KeyModifiers::empty()), SidebarItem::Empty, true),
        UiCommand::SelectPrev
    ));
    let enter = KeyEvent::new(KeyCode::Enter, KeyModifiers::empty());
    assert!(matches!(u.handle_navigation_key(&enter, SidebarItem::Worktree(0), true), UiCommand::ToggleExpand));
    assert!(matches!(
        u.handle_navigation_key(&enter, SidebarItem::Session(0, 1), true),
        UiCommand::Run(AsyncAction::ConnectStream)
    ));
    assert!(matches!(u.handle_navigation_key(&key('d'), SidebarItem::Empty, true), UiCommand::RequestDelete));
    assert!(matches!(u.handle_navigation_key(&key('x'), SidebarItem::Empty, true), UiCommand::RequestDelete));
    assert!(matches!(
        u.handle_navigation_key(&key('t'), SidebarItem::Empty, true),
        UiCommand::Run(AsyncAction::SwitchToDiffView)
    ));
    u.right_panel_view = RightPanelView::Diff;
    assert!(matches!(u.handle_navigation_key(&key('t'), SidebarItem::Empty, true), UiCommand::SwitchToTerminalView));
    assert!(matches!(u.handle_navigation_key(&key('R'), SidebarItem::Worktree(0), true), UiCommand::Nothing));
    assert!(matches!(u.handle_navigation_key(&key('R'), SidebarItem::Session(0, 0), true), UiCommand::StartRenameSession));
    assert!(matches!(u.handle_navigation_key(&key('g'), SidebarItem::Empty, false), UiCommand::Nothing));
    assert!(matches!(
        u.handle_navigation_key(&key('g'), SidebarItem::Empty, true),
        UiCommand::Run(AsyncAction::LoadGitStatus)
    ));
    assert_eq!(u.focus, Focus::GitStatus);
    assert_eq!(u.status_message.as_deref(), Some("Switched to Git Status panel"));
    let esc = KeyEvent::new(KeyCode::Esc, KeyModifiers::empty());
    assert!(matches!(u.handle_navigation_key(&esc, SidebarItem::Empty, true), UiCommand::Nothing));
    assert_eq!(u.focus, Focus::Sidebar);
    assert!(matches!(u.handle_navigation_key(&key('q'), SidebarItem::Empty, true), UiCommand::Nothing));
    assert!(u.should_quit);
}

#[test]
fn navigation_between_lists() {
    let mut u = ui();
    u.focus = Focus::Branches;
    let tab = KeyEvent::new(KeyCode::Tab, KeyModifiers::empty());
    u.handle_navigation_key(&tab, SidebarItem::Empty, true);
    assert_eq!(u.focus, Focus::Sessions);
    assert!(matches!(u.handle_navigation_key(&tab, SidebarItem::Empty, true), UiCommand::Run(AsyncAction::ConnectStream)));
    let back = KeyEvent::new(KeyCode::BackTab, KeyModifiers::shift());
    u.handle_navigation_key(&back, SidebarItem::Empty, true);
    assert_eq!(u.focus, Focus::Branches);
    assert!(matches!(u.handle_navigation_key(&key('a'), SidebarItem::Empty, true), UiCommand::StartAddWorktree));
    u.has_active_session = false;
    u.focus = Focus::Sessions;
    assert!(matches!(u.handle_navigation_key(&tab, SidebarItem::Empty, true), UiCommand::Nothing));
}

#[test]
fn worktree_list_splits_branches_and_keeps_positions() {
    let mut r = sample_repo();
    r.branch_idx = 2;
    r.expanded_worktrees = vec![true, false, true];
    let mut dirty = clean();
    let all = vec![
        worktree("main", true, "/repo", 2),
        worktree("old-branch", false, "", 0),
        worktree("feature", false, "/wt/feature", 1),
        worktree("spare", false, "", 0),
    ];
    let reload = r.set_worktree_list(all, &mut dirty);
    assert_eq!(branches(&r), vec!["main".to_string(), "feature".to_string()]);
    let spare: Vec<String> = r.available_branches.iter().map(|w| w.branch.clone()).collect();
    assert_eq!(spare, vec!["old-branch".to_string(), "spare".to_string()]);
    assert_eq!(r.branch_idx, 1);
    assert_eq!(r.expanded_worktrees, vec![true, false]);
    assert_eq!(r.sessions_by_worktree.len(), 2);
    assert!(r.sessions_by_worktree[0].is_some());
    assert_eq!(reload, vec![0]);
    assert!(dirty.sidebar);
}

#[test]
fn worktree_list_growing_adds_collapsed_slots() {
    let mut r = sample_repo();
    let mut dirty = clean();
    let all = vec![
        worktree("main", true, "/repo", 2),
        worktree("feature", false, "/wt/feature", 1),
        worktree("fix", false, "/wt/fix", 0),
        worktree("new", false, "/wt/new", 0),
    ];
    let reload = r.set_worktree_list(all, &mut dirty);
    assert_eq!(r.worktrees.len(), 4);
    assert!(r.available_branches.is_empty());
    assert_eq!(r.expanded_worktrees, vec![true, false, false, false]);
    assert!(r.sessions_by_worktree[3].is_none());
    assert_eq!(reload, vec![0]);
    assert_eq!(r.branch_idx, 0);
}

#[test]
fn session_list_clamps_selection() {
    let mut r = sample_repo();
    r.session_idx = 1;
    let mut dirty = clean();
    r.set_sessions(vec![session("s9", "nine", "main", 0)], &mut dirty);
    assert_eq!(names(&r.sessions), vec!["nine".to_string()]);
    assert_eq!(r.session_idx, 0);
    assert!(dirty.sidebar);
    r.set_sessions(Vec::new(), &mut dirty);
    assert_eq!(r.session_idx, 0);
}

#[test]
fn worktree_sessions_fill_their_slot() {
    let mut r = sample_repo();
    let mut dirty = clean();
    r.set_worktree_sessions(1, vec![session("f1", "feat", "feature", 0)], &mut dirty);
    assert_eq!(names(r.sessions_by_worktree[1].as_ref().unwrap()), vec!["feat".to_string()]);
    assert!(dirty.sidebar);
    let mut untouched = clean();
    r.set_worktree_sessions(7, vec![session("x", "x", "x", 0)], &mut untouched);
    assert_eq!(untouched, clean());
    assert_eq!(r.sessions_by_worktree.len(), 3);
}

#[test]
fn new_branch_dialog_submits_trimmed_name() {
    let mut u = ui();
    u.input_mode = InputMode::NewBranch;
    u.text_input.set_content("  topic  ");
    assert_eq!(u.submit_new_branch(), Some("topic".to_string()));
    assert_eq!(u.input_mode, InputMode::Normal);
    assert!(u.text_input.is_empty());
    assert_eq!(u.status_message, None);
    assert_eq!(u.error_message, None);

    u.input_mode = InputMode::NewBranch;
    u.text_input.set_content("   ");
    assert_eq!(u.submit_new_branch(), None);
    assert_eq!(u.error_message, Some("Branch name cannot be empty".to_string()));

    let mut idle = ui();
    idle.text_input.set_content("kept");
    assert_eq!(idle.submit_new_branch(), None);
    assert_eq!(idle.text_input.content(), "kept");
}

#[test]
fn rename_dialog_round_trip() {
    let mut u = ui();
    let s = session("s2", "two", "main", 1);
    u.start_rename_session(Some(&s));
    assert_eq!(u.input_mode, InputMode::RenameSession { session_id: "s2".to_string() });
    assert_eq!(u.text_input.content(), "two");
    assert_eq!(u.saved_focus_stack, vec![Focus::Sidebar]);
    u.text_input.set_content(" renamed ");
    u.focus = Focus::Terminal;
    let q = u.submit_rename_session().unwrap();
    assert_eq!(q.session_id, "s2");
    assert_eq!(q.new_name, "renamed");
    assert_eq!(u.focus, Focus::Sidebar);
    assert_eq!(u.input_mode, InputMode::Normal);

    u.start_rename_session(None);
    assert_eq!(u.input_mode, InputMode::Normal);
    u.start_rename_session(Some(&s));
    u.text_input.clear();
    assert!(u.submit_rename_session().is_none());
    assert_eq!(u.error_message, Some("Session name cannot be empty".to_string()));
    assert!(u.saved_focus_stack.is_empty());
}

#[test]
fn add_worktree_dialog_starts_empty() {
    let mut u = ui();
    u.text_input.set_content("leftover");
    let d = u.start_add_worktree(Some("main".to_string()));
    assert!(d.input.is_empty());
    assert_eq!(d.selected, 0);
    assert_eq!(u.input_mode, InputMode::AddWorktree { base_branch: Some("main".to_string()) });
    assert!(u.text_input.is_empty());
}

#[test]
fn worktree_deletion_chains_to_branch_question() {
    let mut u = ui();
    u.saved_focus_stack = vec![Focus::Sidebar];
    u.focus = Focus::Terminal;
    u.input_mode = InputMode::ConfirmDelete(DeleteTarget::Worktree {
        repo_id: "repo".to_string(),
        branch: "feature".to_string(),
    });
    let target = u.take_delete_target().unwrap();
    assert_eq!(target, DeleteTarget::Worktree { repo_id: "repo".to_string(), branch: "feature".to_string() });
    assert_eq!(u.input_mode, InputMode::Normal);
    assert!(u.worktree_removal_done("feature".to_string(), Ok(())));
    assert_eq!(u.input_mode, InputMode::ConfirmDeleteBranch("feature".to_string()));
    assert_eq!(u.saved_focus_stack, vec![Focus::Sidebar]);

    assert_eq!(u.take_branch_to_delete(), Some("feature".to_string()));
    assert_eq!(u.focus, Focus::Sidebar);
    assert!(u.saved_focus_stack.is_empty());
    assert!(u.branch_deletion_done("feature", Ok(())));
    assert_eq!(u.status_message, Some("Deleted branch: feature".to_string()));
    assert!(!u.branch_deletion_done("feature", Err("locked".to_string())));
    assert_eq!(u.error_message, Some("Failed to delete branch: locked".to_string()));
    assert_eq!(u.take_branch_to_delete(), None);
}

#[test]
fn failed_worktree_removal_restores_focus() {
    let mut u = ui();
    u.saved_focus_stack = vec![Focus::Sessions];
    assert!(!u.worktree_removal_done("feature".to_string(), Err("busy".to_string())));
    assert_eq!(u.error_message, Some("busy".to_string()));
    assert_eq!(u.focus, Focus::Sessions);
    assert_eq!(u.input_mode, InputMode::Normal);
    assert_eq!(u.take_delete_target(), None);
}

#[test]
fn ended_sessions_report_how() {
    let mut u = ui();
    u.saved_focus_stack = vec![Focus::Sidebar];
    u.focus = Focus::Terminal;
    assert!(u.session_end_done("one", ccm::deletion::SessionEnd::Destroy, Ok(())));
    assert_eq!(u.status_message, Some("Destroyed session: one".to_string()));
    assert_eq!(u.focus, Focus::Sidebar);
    assert!(u.session_end_done("two", ccm::deletion::SessionEnd::Stop, Ok(())));
    assert_eq!(u.status_message, Some("Stopped session: two".to_string()));
    assert!(!u.session_end_done("two", ccm::deletion::SessionEnd::Stop, Err("gone".to_string())));
    assert_eq!(u.error_message, Some("gone".to_string()));
}

#[test]
fn worktree_sessions_then_worktree() {
    let mut u = ui();
    assert!(u.worktree_sessions_target().is_none());
    u.input_mode = InputMode::ConfirmDeleteWorktreeSessions {
        repo_id: "repo".to_string(),
        branch: "feature".to_string(),
        session_count: 2,
    };
    let t = u.worktree_sessions_target().unwrap();
    assert_eq!(t, DeleteTarget::Worktree { repo_id: "repo".to_string(), branch: "feature".to_string() });
    u.worktree_sessions_cleared(t);
    assert!(matches!(u.input_mode, InputMode::ConfirmDelete(DeleteTarget::Worktree { .. })));
}

#[test]
fn created_worktree_and_session_are_selected() {
    let mut r = sample_repo();
    r.sidebar_cursor = 4;
    assert_eq!(r.select_worktree("feature", true), Some(1));
    assert_eq!(r.branch_idx, 1);
    assert_eq!(r.sidebar_cursor, 1);
    assert_eq!(r.select_worktree("fix", false), Some(2));
    assert_eq!(r.sidebar_cursor, 1);
    assert_eq!(r.select_worktree("nowhere", true), None);
    assert_eq!(r.branch_idx, 2);
    assert_eq!(r.select_session("s2"), Some(1));
    assert_eq!(r.session_idx, 1);
    assert_eq!(r.select_session("zz"), None);
    assert_eq!(r.session_idx, 1);
}

#[test]
fn selected_worktree_and_session() {
    let mut r = sample_repo();
    assert_eq!(r.current_worktree().map(|w| w.branch.clone()), Some("main".to_string()));
    assert_eq!(r.current_session().map(|s| s.id.clone()), Some("s1".to_string()));
    r.branch_idx = 9;
    r.session_idx = 9;
    assert!(r.current_worktree().is_none());
    assert!(r.current_session().is_none());
}

#[test]
fn delete_key_on_a_session_opens_the_confirmation() {
    let mut r = sample_repo();
    r.sidebar_cursor = 2;
    let mut ui = UiState::new(true);
    let key = KeyEvent::new(KeyCode::Char('d'), KeyModifiers::empty());
    let item = r.current_sidebar_item();
    assert!(matches!(ui.handle_navigation_key(&key, item, true), UiCommand::RequestDelete));
    let req = r.request_delete(ui.focus);
    ui.apply_delete_request(req);
    assert_eq!(
        ui.input_mode,
        InputMode::ConfirmDelete(DeleteTarget::Session { session_id: "s2".to_string(), name: "two".to_string() })
    );
    assert_eq!(ui.saved_focus_stack, vec![Focus::Sidebar]);
    assert_eq!(ui.right_panel_view, RightPanelView::Terminal);
    assert!(ui.error_message.is_none());
}

#[test]
fn refused_delete_shows_the_reason() {
    let r = sample_repo();
    let mut ui = UiState::new(true);
    ui.apply_delete_request(r.request_delete(Focus::Sidebar));
    assert_eq!(ui.error_message, Some("Cannot remove main worktree".to_string()));
    assert_eq!(ui.input_mode, InputMode::Normal);
    assert_eq!(ui.saved_focus_stack, vec![Focus::Sidebar]);
    ui.apply_delete_request(DeleteRequest::Nothing);
    assert_eq!(ui.saved_focus_stack, vec![Focus::Sidebar, Focus::Sidebar]);
}

struct World {
    ui: UiState,
    repos: ccm::repo::RepoList,
    repo: RepoState,
    git: ccm::git_panel::GitPanel,
    diff: ccm::diff_nav::DiffState,
    dirty: DirtyFlags,
    dialog: ccm::input::AddWorktreeDialog,
}

fn world() -> World {
    World {
        ui: UiState::new(true),
        repos: ccm::repo::RepoList { order: vec!["repo".to_string(), "other".to_string()], current: Some("repo".to_string()) },
        repo: sample_repo(),
        git: ccm::git_panel::GitPanel {
            files: Vec::new(),
            expanded_sections: ccm::state::GitSectionSet::new(),
            cursor: 0,
            pending_diff_file: None,
        },
        diff: ccm::diff_nav::DiffState::new(),
        dirty: clean(),
        dialog: ccm::input::AddWorktreeDialog { input: vec!['x'], selected: 3 },
    }
}

fn apply(w: &mut World, cmd: UiCommand, active: &Option<String>) -> ccm::input::Followup {
    ccm::input::apply_command(
        cmd, &mut w.ui, &mut w.repos, &mut w.repo, &mut w.git, &mut w.diff, &mut w.dirty, &mut w.dialog, active,
    )
}

#[test]
fn sidebar_delete_key_reaches_the_confirmation() {
    let mut w = world();
    w.repo.sidebar_cursor = 2;
    let key = KeyEvent::new(KeyCode::Char('d'), KeyModifiers::empty());
    let item = w.repo.current_sidebar_item();
    let cmd = w.ui.handle_navigation_key(&key, item, true);
    let f = apply(&mut w, cmd, &None);
    assert!(f.run.is_none() && f.attach.is_none() && f.scroll.is_none());
    assert_eq!(
        w.ui.input_mode,
        InputMode::ConfirmDelete(DeleteTarget::Session { session_id: "s2".to_string(), name: "two".to_string() })
    );
    assert_eq!(w.ui.right_panel_view, RightPanelView::Terminal);
}

#[test]
fn applied_commands_do_what_they_name() {
    let mut w = world();
    // Work to queue is handed back.
    let f = apply(&mut w, UiCommand::Run(AsyncAction::RefreshAll), &None);
    assert_eq!(f.run, Some(AsyncAction::RefreshAll));
    // Switching to another repository refreshes its branches.
    let f = apply(&mut w, UiCommand::SwitchRepo(1), &None);
    assert_eq!(f.run, Some(AsyncAction::RefreshBranches));
    assert_eq!(w.repos.current, Some("other".to_string()));
    assert!(apply(&mut w, UiCommand::SwitchRepo(1), &None).run.is_none());
    // Moving down in the sidebar.
    let f = apply(&mut w, UiCommand::SelectNext, &None);
    assert_eq!(w.repo.sidebar_cursor, 1);
    assert!(f.run.is_none());
    // The tree view switch.
    apply(&mut w, UiCommand::ToggleTreeView, &None);
    assert!(!w.ui.tree_view_enabled);
    assert!(w.dirty.sidebar);
    // The add-worktree dialog starts from the selected worktree.
    apply(&mut w, UiCommand::StartAddWorktree, &None);
    assert_eq!(w.ui.input_mode, InputMode::AddWorktree { base_branch: Some("main".to_string()) });
    assert!(w.dialog.input.is_empty());
    assert_eq!(w.dialog.selected, 0);
    // Scrolling is handed on to the terminal.
    let f = apply(&mut w, UiCommand::ScrollUp(3), &None);
    assert_eq!(f.scroll, Some(ccm::input::TerminalScroll::Up(3)));
    let f = apply(&mut w, UiCommand::Nothing, &None);
    assert!(f.run.is_none() && f.scroll.is_none());
}

#[test]
fn applied_rename_and_expand() {
    let mut w = world();
    apply(&mut w, UiCommand::StartRenameSession, &None);
    assert_eq!(w.ui.input_mode, InputMode::RenameSession { session_id: "s1".to_string() });
    assert_eq!(w.ui.text_input.content(), "one");
    let mut w = world();
    w.repo.sidebar_cursor = 3;
    let f = apply(&mut w, UiCommand::ToggleExpand, &None);
    assert_eq!(f.run, Some(AsyncAction::LoadWorktreeSessions { wt_idx: 1 }));
}

#[test]
fn destroyed_session_reloads_or_shows_the_error() {
    let mut ui = UiState::new(true);
    let next = ui.destroy_session_done(2, Ok(()));
    assert_eq!(next, vec![AsyncAction::RefreshSessions, AsyncAction::LoadWorktreeSessions { wt_idx: 2 }]);
    assert!(ui.error_message.is_none());
    let next = ui.destroy_session_done(2, Err("session not found".to_string()));
    assert!(next.is_empty());
    assert_eq!(ui.error_message, Some("session not found".to_string()));
}
