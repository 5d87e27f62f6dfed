use ccm::actions::Action;
use ccm::input::{handle_insert_mode_key, route_key, AddWorktreeDialog, KeyRoute};
use ccm::keys::{KeyCode, KeyEvent, KeyModifiers};
use ccm::state::{AsyncAction, Focus, InputMode, PrefixMode, RightPanelView, SidebarItem, TerminalMode};
use ccm::text_input::TextInput;
use ccm::ui_state::{UiCommand, UiState};

fn ui() -> UiState {
    UiState {
        focus: Focus::Sidebar,
        saved_focus_stack: Vec::new(),
        right_panel_view: RightPanelView::Terminal,
        input_mode: InputMode::Normal,
        prefix_mode: PrefixMode::Inactive,
        terminal_mode: TerminalMode::Normal,
        fullscreen: false,
        is_interactive: false,
        tree_view_enabled: true,
        has_active_session: true,
        should_quit: false,
        status_message: None,
        error_message: None,
        text_input: TextInput::new(),
    }
}

fn key(code: KeyCode) -> KeyEvent {
    KeyEvent::new(code, KeyModifiers::empty())
}

fn ctrl(c: char) -> KeyEvent {
    KeyEvent::new(KeyCode::Char(c), KeyModifiers::control())
}

#[test]
fn routing_by_prefix_dialog_and_focus() {
    let mut u = ui();
    assert_eq!(route_key(&mut u, &ctrl('c'), false), KeyRoute::Ignored);
    assert_eq!(route_key(&mut u, &ctrl('s'), true), KeyRoute::PrefixArmed);
    assert_eq!(u.prefix_mode, PrefixMode::WaitingForCommand);
    assert_eq!(route_key(&mut u, &key(KeyCode::Char('w')), false), KeyRoute::PrefixCommand);
    u.prefix_mode = PrefixMode::Inactive;
    u.input_mode = InputMode::RenameSession { session_id: "s".to_string() };
    // While text is typed the prefix key is just a key.
    assert_eq!(route_key(&mut u, &ctrl('s'), true), KeyRoute::RenameSession);
    assert_eq!(u.prefix_mode, PrefixMode::Inactive);
    u.input_mode = InputMode::TodoPopup;
    assert_eq!(route_key(&mut u, &key(KeyCode::Char('j')), false), KeyRoute::TodoPopup);
    u.input_mode = InputMode::Normal;
    u.focus = Focus::Terminal;
    assert_eq!(route_key(&mut u, &key(KeyCode::Char('j')), false), KeyRoute::TerminalNormal);
    u.terminal_mode = TerminalMode::Insert;
    assert_eq!(route_key(&mut u, &key(KeyCode::Char('j')), false), KeyRoute::TerminalInsert);
    u.focus = Focus::DiffFiles;
    assert_eq!(route_key(&mut u, &key(KeyCode::Char('j')), false), KeyRoute::DiffView);
    u.focus = Focus::GitStatus;
    assert_eq!(route_key(&mut u, &key(KeyCode::Char('j')), false), KeyRoute::GitStatus);
    u.focus = Focus::Branches;
    assert_eq!(route_key(&mut u, &key(KeyCode::Char('j')), false), KeyRoute::Sidebar);
}

#[test]
fn prefix_command_disarms() {
    let mut u = ui();
    u.prefix_mode = PrefixMode::WaitingForCommand;
    assert!(matches!(u.handle_prefix_command(&key(KeyCode::Esc), Some(Action::Quit)), UiCommand::Nothing));
    assert_eq!(u.prefix_mode, PrefixMode::Inactive);
    assert!(!u.should_quit);
    u.prefix_mode = PrefixMode::WaitingForCommand;
    u.handle_prefix_command(&key(KeyCode::Char('q')), Some(Action::Quit));
    assert!(u.should_quit);
    assert_eq!(u.prefix_mode, PrefixMode::Inactive);
    u.prefix_mode = PrefixMode::WaitingForCommand;
    assert!(matches!(u.handle_prefix_command(&key(KeyCode::Char('?')), None), UiCommand::Nothing));
    assert_eq!(u.prefix_mode, PrefixMode::Inactive);
}

#[test]
fn insert_mode_keys() {
    assert!(matches!(handle_insert_mode_key(&ctrl('@')), UiCommand::Run(AsyncAction::SwitchToShell)));
    match handle_insert_mode_key(&key(KeyCode::Char('a'))) {
        UiCommand::Run(AsyncAction::SendToTerminal { data }) => assert_eq!(data, vec![b'a']),
        other => panic!("unexpected {:?}", other),
    }
    match handle_insert_mode_key(&key(KeyCode::Esc)) {
        UiCommand::Run(AsyncAction::SendToTerminal { data }) => assert_eq!(data, vec![0x1b]),
        other => panic!("unexpected {:?}", other),
    }
    assert!(matches!(handle_insert_mode_key(&key(KeyCode::CapsLock)), UiCommand::Nothing));
}

#[test]
fn normal_mode_keys() {
    let mut u = ui();
    u.focus = Focus::Terminal;
    assert_eq!(u.handle_terminal_normal_key(&key(KeyCode::Char('u'))), UiCommand::ScrollUp(10));
    assert_eq!(u.handle_terminal_normal_key(&key(KeyCode::Down)), UiCommand::ScrollDown(1));
    assert_eq!(u.handle_terminal_normal_key(&key(KeyCode::Char('g'))), UiCommand::ScrollToTop);
    u.handle_terminal_normal_key(&key(KeyCode::Char('z')));
    assert!(u.fullscreen);
    u.handle_terminal_normal_key(&key(KeyCode::Esc));
    assert!(!u.fullscreen);
    assert_eq!(u.handle_terminal_normal_key(&key(KeyCode::Char('i'))), UiCommand::ScrollToBottom);
    assert_eq!(u.terminal_mode, TerminalMode::Insert);
    u.handle_terminal_normal_key(&KeyEvent::new(KeyCode::BackTab, KeyModifiers::shift()));
    assert_eq!(u.focus, Focus::Sidebar);
    assert_eq!(u.terminal_mode, TerminalMode::Normal);
}

#[test]
fn terminal_actions() {
    let mut u = ui();
    assert_eq!(u.execute_terminal_normal_action(Action::ScrollHalfPageDown), UiCommand::ScrollDown(10));
    assert_eq!(u.execute_terminal_normal_action(Action::InsertMode), UiCommand::ScrollToBottom);
    assert_eq!(u.terminal_mode, TerminalMode::Insert);
    assert_eq!(u.execute_terminal_insert_action(Action::NormalMode), UiCommand::Nothing);
    assert_eq!(u.terminal_mode, TerminalMode::Normal);
    assert!(matches!(
        u.execute_terminal_insert_action(Action::SwitchToShell),
        UiCommand::Run(AsyncAction::SwitchToShell)
    ));
}

#[test]
fn sidebar_actions() {
    let mut u = ui();
    u.status_message = Some("old".to_string());
    assert!(matches!(u.execute_sidebar_action(Action::Select, SidebarItem::Worktree(0), true), UiCommand::ToggleExpand));
    assert_eq!(u.status_message, None);
    assert!(matches!(
        u.execute_sidebar_action(Action::Select, SidebarItem::Session(0, 0), true),
        UiCommand::Run(AsyncAction::ConnectStream)
    ));
    assert!(matches!(u.execute_sidebar_action(Action::RenameSession, SidebarItem::Worktree(0), true), UiCommand::Nothing));
    assert!(matches!(u.execute_sidebar_action(Action::FocusGitStatus, SidebarItem::Empty, false), UiCommand::Nothing));
    assert!(matches!(
        u.execute_sidebar_action(Action::FocusGitStatus, SidebarItem::Empty, true),
        UiCommand::Run(AsyncAction::LoadGitStatus)
    ));
    assert_eq!(u.focus, Focus::GitStatus);
    assert!(matches!(u.execute_sidebar_action(Action::AddWorktree, SidebarItem::Empty, true), UiCommand::Nothing));
    assert!(matches!(u.execute_sidebar_action(Action::DeleteCurrent, SidebarItem::Empty, true), UiCommand::RequestDelete));
}

#[test]
fn confirm_and_text_dialogs() {
    let mut u = ui();
    u.save_focus();
    u.focus = Focus::Branches;
    u.input_mode = InputMode::ConfirmDeleteBranch("b".to_string());
    // Enter does not confirm here.
    assert!(u.handle_confirm_key(&key(KeyCode::Enter), false, AsyncAction::ConfirmDeleteBranch).is_none());
    assert!(matches!(
        u.handle_confirm_key(&key(KeyCode::Char('y')), false, AsyncAction::ConfirmDeleteBranch),
        Some(AsyncAction::ConfirmDeleteBranch)
    ));
    assert!(matches!(
        u.handle_confirm_key(&key(KeyCode::Enter), true, AsyncAction::ConfirmDelete),
        Some(AsyncAction::ConfirmDelete)
    ));
    assert!(u.handle_confirm_key(&key(KeyCode::Char('n')), true, AsyncAction::ConfirmDelete).is_none());
    assert_eq!(u.input_mode, InputMode::Normal);
    assert_eq!(u.focus, Focus::Sidebar);

    u.input_mode = InputMode::RenameSession { session_id: "s".to_string() };
    assert!(u.handle_dialog_text_key(&key(KeyCode::Char('x')), AsyncAction::SubmitRenameSession).is_none());
    assert_eq!(u.text_input.content(), "x");
    assert!(matches!(
        u.handle_dialog_text_key(&key(KeyCode::Enter), AsyncAction::SubmitRenameSession),
        Some(AsyncAction::SubmitRenameSession)
    ));
    assert!(u.handle_dialog_text_key(&key(KeyCode::Esc), AsyncAction::SubmitRenameSession).is_none());
    assert_eq!(u.input_mode, InputMode::Normal);
    assert_eq!(u.text_input.content(), "");
}

#[test]
fn add_worktree_dialog() {
    let mut u = ui();
    let mut d = AddWorktreeDialog { input: Vec::new(), selected: 0 };
    d.handle_key(&mut u, &key(KeyCode::Char('j')), 3);
    d.handle_key(&mut u, &key(KeyCode::Down), 3);
    d.handle_key(&mut u, &key(KeyCode::Down), 3);
    assert_eq!(d.selected, 2);
    d.handle_key(&mut u, &key(KeyCode::Char('k')), 3);
    assert_eq!(d.selected, 1);
    d.handle_key(&mut u, &key(KeyCode::Char('f')), 3);
    d.handle_key(&mut u, &key(KeyCode::Char('k')), 3);
    assert_eq!(d.input, vec!['f', 'k']);
    assert_eq!(d.selected, 1);
    d.handle_key(&mut u, &key(KeyCode::Backspace), 3);
    assert_eq!(d.input, vec!['f']);
    d.handle_key(&mut u, &KeyEvent::new(KeyCode::Enter, KeyModifiers::shift()), 3);
    assert_eq!(d.input, vec!['f', '\n']);
    assert!(matches!(d.handle_key(&mut u, &key(KeyCode::Enter), 3), Some(AsyncAction::SubmitAddWorktree)));
}

#[test]
fn add_worktree_requests() {
    let mut u = ui();
    u.save_focus();
    u.input_mode = InputMode::AddWorktree { base_branch: Some("main".to_string()) };
    let branches = vec!["main".to_string(), "dev".to_string()];
    let typed = AddWorktreeDialog { input: vec![' ', 'f', 'x', ' '], selected: 0 };
    let q = typed.take_request(&mut u, &branches).unwrap();
    assert_eq!(q.branch, "fx");
    assert_eq!(q.base, Some("main".to_string()));
    assert_eq!(u.input_mode, InputMode::Normal);
    u.input_mode = InputMode::AddWorktree { base_branch: None };
    let chosen = AddWorktreeDialog { input: Vec::new(), selected: 1 };
    let q = chosen.take_request(&mut u, &branches).unwrap();
    assert_eq!(q.branch, "dev");
    assert_eq!(q.base, None);
    let nothing = AddWorktreeDialog { input: Vec::new(), selected: 9 };
    u.input_mode = InputMode::AddWorktree { base_branch: None };
    assert!(nothing.take_request(&mut u, &branches).is_none());
    assert_eq!(u.input_mode, InputMode::Normal);
}
