//! Where a key goes: the prefix key, the open dialog, the terminal's modes,
//! the diff view, the git panel or the sidebar; and the handlers of the
//! terminal modes and of the dialogs that only confirm or take a line of text.

use vstd::prelude::*;
use crate::actions::Action;
use crate::keys::{
    confirmation_spec, handle_confirmation, handle_confirmation_with_enter, handle_text_input,
    is_text_input_mode, is_text_input_mode_spec, key_bytes_spec, key_to_bytes, text_input_spec,
    Confirmation, KeyCode, KeyEvent, TextInputResult,
};
use crate::state::{
    AsyncAction, DeleteTarget, DirtyFlags, Focus, InputMode, PrefixMode, RightPanelView, SidebarItem, TerminalMode,
};
use crate::text::{string_from_chars, trim, trim_spec};
use crate::ui_state::{
    connect_if_active, exit_terminal_spec, prefix_action_spec, restore_focus_spec, UiCommand, UiState,
    UiView,
};
use crate::text_input::TextInputView;
use crate::repo::{opt_str, sidebar_marked, DeleteRequest, RepoList, RepoState, SessionInfo};
use crate::review::switch_to_terminal_view;
use crate::ui_state::{apply_delete_request_spec, navigation_spec};
use crate::git_panel::{panel_rows, GitPanel};
use crate::diff_nav::DiffState;
use crate::outline::{law_outline_rows_are_unique, outline_item_spec, outline_total, row_down, row_up, OutlineItem};
use crate::ui_state::save_focus_spec;

verus! {

/// The handler a key goes to.
#[derive(Debug, Clone, Copy, PartialEq, Eq, Structural)]
pub enum KeyRoute {
    /// Ctrl+C and Ctrl+Z do nothing here
    Ignored,
    /// The prefix key: the next key is a prefix command
    PrefixArmed,
    /// The key after the prefix key
    PrefixCommand,
    NewBranchInput,
    AddWorktree,
    RenameSession,
    ConfirmDelete,
    ConfirmDeleteBranch,
    ConfirmDeleteWorktreeSessions,
    AddLineComment,
    EditLineComment,
    TodoPopup,
    AddTodo,
    EditTodo,
    EditTodoDescription,
    ConfirmDeleteTodo,
    TerminalInsert,
    TerminalNormal,
    DiffView,
    GitStatus,
    Sidebar,
}

/// The handler of the open dialog, if one is open.
pub open spec fn dialog_route(mode: InputMode) -> Option<KeyRoute> {
    match mode {
        InputMode::Normal => None,
        InputMode::NewBranch => Some(KeyRoute::NewBranchInput),
        InputMode::AddWorktree { .. } => Some(KeyRoute::AddWorktree),
        InputMode::RenameSession { .. } => Some(KeyRoute::RenameSession),
        InputMode::ConfirmDelete(_) => Some(KeyRoute::ConfirmDelete),
        InputMode::ConfirmDeleteBranch(_) => Some(KeyRoute::ConfirmDeleteBranch),
        InputMode::ConfirmDeleteWorktreeSessions { .. } => Some(KeyRoute::ConfirmDeleteWorktreeSessions),
        InputMode::AddLineComment { .. } => Some(KeyRoute::AddLineComment),
        InputMode::EditLineComment { .. } => Some(KeyRoute::EditLineComment),
        InputMode::TodoPopup => Some(KeyRoute::TodoPopup),
        InputMode::AddTodo { .. } => Some(KeyRoute::AddTodo),
        InputMode::EditTodo { .. } => Some(KeyRoute::EditTodo),
        InputMode::EditTodoDescription { .. } => Some(KeyRoute::EditTodoDescription),
        InputMode::ConfirmDeleteTodo { .. } => Some(KeyRoute::ConfirmDeleteTodo),
    }
}

/// Where a key goes. Ctrl+C and Ctrl+Z are ignored; the prefix key arms the
/// prefix (except while text is typed); after it the key is a prefix command;
/// then the open dialog takes it; then the focused panel.
pub open spec fn route_spec(v: UiView, key: KeyEvent, is_prefix_key: bool) -> KeyRoute {
    if key.modifiers.control && (key.code == KeyCode::Char('c') || key.code == KeyCode::Char('z')) {
        KeyRoute::Ignored
    } else if is_prefix_key && !is_text_input_mode_spec(v.input_mode) {
        KeyRoute::PrefixArmed
    } else if v.prefix_mode == PrefixMode::WaitingForCommand {
        KeyRoute::PrefixCommand
    } else if let Some(r) = dialog_route(v.input_mode) {
        r
    } else if v.focus == Focus::Terminal {
        if v.terminal_mode == TerminalMode::Insert {
            KeyRoute::TerminalInsert
        } else {
            KeyRoute::TerminalNormal
        }
    } else if v.focus == Focus::DiffFiles {
        KeyRoute::DiffView
    } else if v.focus == Focus::GitStatus {
        KeyRoute::GitStatus
    } else {
        KeyRoute::Sidebar
    }
}

/// A key seen from the top: where it goes. `is_prefix_key` tells whether it
/// is the configured prefix key; arming the prefix is done here.
pub fn route_key(ui: &mut UiState, key: &KeyEvent, is_prefix_key: bool) -> (r: KeyRoute)
    requires
        old(ui).wf(),
    ensures
        final(ui).wf(),
        r == route_spec(old(ui)@, *key, is_prefix_key),
        final(ui)@ == if r == KeyRoute::PrefixArmed {
            UiView { prefix_mode: PrefixMode::WaitingForCommand, ..old(ui)@ }
        } else {
            old(ui)@
        },
{
    if key.modifiers.control && (key.code == KeyCode::Char('c') || key.code == KeyCode::Char('z')) {
        return KeyRoute::Ignored;
    }
    if is_prefix_key && !is_text_input_mode(&ui.input_mode) {
        ui.prefix_mode = PrefixMode::WaitingForCommand;
        return KeyRoute::PrefixArmed;
    }
    if ui.prefix_mode == PrefixMode::WaitingForCommand {
        return KeyRoute::PrefixCommand;
    }
    let dialog = match &ui.input_mode {
        InputMode::Normal => None,
        InputMode::NewBranch => Some(KeyRoute::NewBranchInput),
        InputMode::AddWorktree { .. } => Some(KeyRoute::AddWorktree),
        InputMode::RenameSession { .. } => Some(KeyRoute::RenameSession),
        InputMode::ConfirmDelete(_) => Some(KeyRoute::ConfirmDelete),
        InputMode::ConfirmDeleteBranch(_) => Some(KeyRoute::ConfirmDeleteBranch),
        InputMode::ConfirmDeleteWorktreeSessions { .. } => Some(KeyRoute::ConfirmDeleteWorktreeSessions),
        InputMode::AddLineComment { .. } => Some(KeyRoute::AddLineComment),
        InputMode::EditLineComment { .. } => Some(KeyRoute::EditLineComment),
        InputMode::TodoPopup => Some(KeyRoute::TodoPopup),
        InputMode::AddTodo { .. } => Some(KeyRoute::AddTodo),
        InputMode::EditTodo { .. } => Some(KeyRoute::EditTodo),
        InputMode::EditTodoDescription { .. } => Some(KeyRoute::EditTodoDescription),
        InputMode::ConfirmDeleteTodo { .. } => Some(KeyRoute::ConfirmDeleteTodo),
    };
    if let Some(route) = dialog {
        return route;
    }
    if ui.focus == Focus::Terminal {
        if ui.terminal_mode == TerminalMode::Insert {
            KeyRoute::TerminalInsert
        } else {
            KeyRoute::TerminalNormal
        }
    } else if ui.focus == Focus::DiffFiles {
        KeyRoute::DiffView
    } else if ui.focus == Focus::GitStatus {
        KeyRoute::GitStatus
    } else {
        KeyRoute::Sidebar
    }
}

impl UiState {
    /// The key after the prefix key: the prefix is disarmed; Esc cancels;
    /// otherwise the action bound to the key (`resolved`), if any, is carried
    /// out.
    pub fn handle_prefix_command(&mut self, key: &KeyEvent, resolved: Option<Action>) -> (r: UiCommand)
        requires
            old(self).wf(),
        ensures
            final(self).wf(),
            ({
                let disarmed = UiView { prefix_mode: PrefixMode::Inactive, ..old(self)@ };
                match resolved {
                    Some(a) if key.code != KeyCode::Esc => (final(self)@, r) == prefix_action_spec(
                        disarmed,
                        a,
                    ),
                    _ => r is Nothing && final(self)@ == disarmed,
                }
            }),
    {
        self.prefix_mode = PrefixMode::Inactive;
        if key.code == KeyCode::Esc {
            return UiCommand::Nothing;
        }
        match resolved {
            Some(action) => self.execute_prefix_action(action),
            None => UiCommand::Nothing,
        }
    }
}

/// Whether the key asks for the shell session: Ctrl with the backtick (or
/// what terminals send for it: NUL, space, `@`).
pub open spec fn is_shell_key(key: KeyEvent) -> bool {
    key.modifiers.control && (key.code == KeyCode::Char('`') || key.code == KeyCode::Char('\0')
        || key.code == KeyCode::Char(' ') || key.code == KeyCode::Char('@') || key.code
        == KeyCode::Null)
}

/// A key in the terminal's insert mode: the shell key switches to the shell
/// session; any other key goes to the terminal as its bytes (Esc included).
pub fn handle_insert_mode_key(key: &KeyEvent) -> (r: UiCommand)
    ensures
        if is_shell_key(*key) {
            r matches UiCommand::Run(AsyncAction::SwitchToShell)
        } else if key_bytes_spec(*key).len() > 0 {
            r matches UiCommand::Run(AsyncAction::SendToTerminal { data }) && data@ == key_bytes_spec(*key)
        } else {
            r is Nothing
        },
{
    if key.modifiers.control && (key.code == KeyCode::Char('`') || key.code == KeyCode::Char('\0')
        || key.code == KeyCode::Char(' ') || key.code == KeyCode::Char('@') || key.code
        == KeyCode::Null) {
        return UiCommand::Run(AsyncAction::SwitchToShell);
    }
    let data = key_to_bytes(key);
    if data.len() > 0 {
        UiCommand::Run(AsyncAction::SendToTerminal { data })
    } else {
        UiCommand::Nothing
    }
}

impl UiState {
    /// A key in the terminal's normal (scroll) mode.
    pub fn handle_terminal_normal_key(&mut self, key: &KeyEvent) -> (r: UiCommand)
        requires
            old(self).wf(),
        ensures
            final(self).wf(),
            match key.code {
                KeyCode::Char('f') | KeyCode::Char('z') => r is Nothing && final(self)@ == (UiView {
                    fullscreen: !old(self)@.fullscreen,
                    ..old(self)@
                }),
                KeyCode::Esc => r is Nothing && final(self)@ == (UiView { fullscreen: false, ..old(self)@ }),
                KeyCode::BackTab => r is Nothing && final(self)@ == exit_terminal_spec(old(self)@),
                KeyCode::Char('i') | KeyCode::Enter => r is ScrollToBottom && final(self)@ == (UiView {
                    terminal_mode: TerminalMode::Insert,
                    ..old(self)@
                }),
                KeyCode::Char('k') | KeyCode::Up => r == UiCommand::ScrollUp(1) && final(self)@ == old(self)@,
                KeyCode::Char('j') | KeyCode::Down => r == UiCommand::ScrollDown(1) && final(self)@
                    == old(self)@,
                KeyCode::Char('u') => r == UiCommand::ScrollUp(10) && final(self)@ == old(self)@,
                KeyCode::Char('d') => r == UiCommand::ScrollDown(10) && final(self)@ == old(self)@,
                KeyCode::Char('G') => r is ScrollToBottom && final(self)@ == old(self)@,
                KeyCode::Char('g') => r is ScrollToTop && final(self)@ == old(self)@,
                _ => r is Nothing && final(self)@ == old(self)@,
            },
    {
        match key.code {
            KeyCode::Char('f') | KeyCode::Char('z') => {
                self.toggle_fullscreen();
                UiCommand::Nothing
            },
            KeyCode::Esc => {
                self.fullscreen = false;
                UiCommand::Nothing
            },
            KeyCode::BackTab => {
                self.exit_terminal();
                UiCommand::Nothing
            },
            KeyCode::Char('i') | KeyCode::Enter => {
                self.terminal_mode = TerminalMode::Insert;
                UiCommand::ScrollToBottom
            },
            KeyCode::Char('k') | KeyCode::Up => UiCommand::ScrollUp(1),
            KeyCode::Char('j') | KeyCode::Down => UiCommand::ScrollDown(1),
            KeyCode::Char('u') => UiCommand::ScrollUp(10),
            KeyCode::Char('d') => UiCommand::ScrollDown(10),
            KeyCode::Char('G') => UiCommand::ScrollToBottom,
            KeyCode::Char('g') => UiCommand::ScrollToTop,
            _ => UiCommand::Nothing,
        }
    }

    /// A key in a dialog that only confirms: yes gives `on_confirm`, no
    /// closes the dialog (the focus saved when it opened comes back).
    /// `enter_confirms` tells whether Enter counts as yes.
    pub fn handle_confirm_key(&mut self, key: &KeyEvent, enter_confirms: bool, on_confirm: AsyncAction) -> (r:
        Option<AsyncAction>)
        requires
            old(self).wf(),
        ensures
            final(self).wf(),
            match confirmation_spec(*key, enter_confirms) {
                Confirmation::Confirm => r == Some(on_confirm) && final(self)@ == old(self)@,
                Confirmation::Cancel => r is None && final(self)@ == cancelled(old(self)@),
                Confirmation::Ignore => r is None && final(self)@ == old(self)@,
            },
    {
        let c = if enter_confirms {
            handle_confirmation_with_enter(key)
        } else {
            handle_confirmation(key)
        };
        match c {
            Confirmation::Confirm => Some(on_confirm),
            Confirmation::Cancel => {
                self.cancel_input();
                None
            },
            Confirmation::Ignore => None,
        }
    }

    /// A key in a dialog that takes a line of text (new branch name, session
    /// name, comment): the field edits it, Esc closes the dialog, Enter gives
    /// `on_submit`.
    pub fn handle_dialog_text_key(&mut self, key: &KeyEvent, on_submit: AsyncAction) -> (r: Option<
        AsyncAction,
    >)
        requires
            old(self).wf(),
            old(self)@.text.text.len() < usize::MAX,
        ensures
            final(self).wf(),
            ({
                let (res, after) = text_input_spec(*key, old(self)@.text);
                match res {
                    TextInputResult::Cancel => r is None && final(self)@ == cancelled(old(self)@),
                    TextInputResult::Submit => r == Some(on_submit) && final(self)@ == (UiView {
                        text: after,
                        ..old(self)@
                    }),
                    _ => r is None && final(self)@ == (UiView { text: after, ..old(self)@ }),
                }
            }),
    {
        match handle_text_input(key, &mut self.text_input) {
            TextInputResult::Cancel => {
                self.cancel_input();
                None
            },
            TextInputResult::Submit => Some(on_submit),
            TextInputResult::Handled | TextInputResult::Unhandled => None,
        }
    }
}

/// A dialog closed without acting: normal input, an empty field, no
/// message, the saved focus back.
pub open spec fn cancelled(v: UiView) -> UiView {
    restore_focus_spec(
        UiView {
            input_mode: InputMode::Normal,
            status_message: None,
            text: TextInputView { text: Seq::empty(), cursor: 0 },
            ..v
        },
    )
}

/// The add-worktree dialog: a typed branch name, or, while none is typed, a
/// choice among the existing branches.
#[derive(Debug)]
pub struct AddWorktreeDialog {
    /// The name being typed
    pub input: Vec<char>,
    /// The chosen branch
    pub selected: usize,
}

impl AddWorktreeDialog {
    /// The choice one branch up, while no name is typed.
    pub open spec fn moved_up(&self) -> usize {
        if self.input@.len() == 0 && self.selected > 0 {
            (self.selected - 1) as usize
        } else {
            self.selected
        }
    }

    /// The choice one branch down, while no name is typed.
    pub open spec fn moved_down(&self, branch_count: usize) -> usize {
        if self.input@.len() == 0 && self.selected + 1 < branch_count {
            (self.selected + 1) as usize
        } else {
            self.selected
        }
    }

    fn move_up(&mut self)
        ensures
            final(self).input == old(self).input,
            final(self).selected == old(self).moved_up(),
    {
        if self.input.len() == 0 && self.selected > 0 {
            self.selected = self.selected - 1;
        }
    }

    fn move_down(&mut self, branch_count: usize)
        ensures
            final(self).input == old(self).input,
            final(self).selected == old(self).moved_down(branch_count),
    {
        if self.input.len() == 0 && self.selected < usize::MAX && self.selected + 1 < branch_count {
            self.selected = self.selected + 1;
        }
    }

    /// A key in the dialog. `branch_count` is how many branches there are to
    /// choose from. Shift+Enter adds a line break to the name.
    pub fn handle_key(&mut self, ui: &mut UiState, key: &KeyEvent, branch_count: usize) -> (r: Option<
        AsyncAction,
    >)
        requires
            old(ui).wf(),
        ensures
            final(ui).wf(),
            if key.code == KeyCode::Enter && key.modifiers.shift {
                r is None && final(self).input@ == old(self).input@.push('\n') && final(self).selected
                    == old(self).selected && final(ui)@ == old(ui)@
            } else {
                match key.code {
                    KeyCode::Esc => r is None && final(ui)@ == cancelled(old(ui)@) && final(self).input
                        == old(self).input && final(self).selected == old(self).selected,
                    KeyCode::Enter => r matches Some(AsyncAction::SubmitAddWorktree) && final(ui)@
                        == old(ui)@ && final(self).input == old(self).input && final(self).selected
                        == old(self).selected,
                    KeyCode::Up => r is None && final(ui)@ == old(ui)@ && final(self).input == old(self).input
                        && final(self).selected == old(self).moved_up(),
                    KeyCode::Down => r is None && final(ui)@ == old(ui)@ && final(self).input
                        == old(self).input && final(self).selected == old(self).moved_down(branch_count),
                    KeyCode::Backspace => {
                        &&& r is None
                        &&& final(ui)@ == old(ui)@
                        &&& final(self).selected == old(self).selected
                        &&& final(self).input@ == if old(self).input@.len() > 0 {
                            old(self).input@.drop_last()
                        } else {
                            old(self).input@
                        }
                    },
                    KeyCode::Char(c) => r is None && final(ui)@ == old(ui)@ && if c == 'k' && old(self).input@.len() == 0 {
                        final(self).input == old(self).input && final(self).selected == old(self).moved_up()
                    } else if c == 'j' && old(self).input@.len() == 0 {
                        final(self).input == old(self).input && final(self).selected == old(self).moved_down(branch_count)
                    } else {
                        final(self).selected == old(self).selected && final(self).input@ == old(self).input@.push(c)
                    },
                    _ => r is None && final(ui)@ == old(ui)@ && final(self).input == old(self).input
                        && final(self).selected == old(self).selected,
                }
            },
    {
        if key.code == KeyCode::Enter && key.modifiers.shift {
            self.input.push('\n');
            return None;
        }
        match key.code {
            KeyCode::Esc => {
                ui.cancel_input();
                None
            },
            KeyCode::Enter => Some(AsyncAction::SubmitAddWorktree),
            KeyCode::Up => {
                self.move_up();
                None
            },
            KeyCode::Down => {
                self.move_down(branch_count);
                None
            },
            KeyCode::Backspace => {
                self.input.pop();
                None
            },
            KeyCode::Char(c) => {
                if c == 'k' && self.input.len() == 0 {
                    self.move_up();
                } else if c == 'j' && self.input.len() == 0 {
                    self.move_down(branch_count);
                } else {
                    self.input.push(c);
                }
                None
            },
            _ => None,
        }
    }
}

impl UiState {
    /// An action bound in the terminal's normal mode.
    pub fn execute_terminal_normal_action(&mut self, action: Action) -> (r: UiCommand)
        requires
            old(self).wf(),
        ensures
            final(self).wf(),
            match action {
                Action::ToggleFullscreen => r is Nothing && final(self)@ == (UiView {
                    fullscreen: !old(self)@.fullscreen,
                    ..old(self)@
                }),
                Action::InsertMode => r is ScrollToBottom && final(self)@ == (UiView {
                    terminal_mode: TerminalMode::Insert,
                    ..old(self)@
                }),
                Action::ScrollUp => r == UiCommand::ScrollUp(1) && final(self)@ == old(self)@,
                Action::ScrollDown => r == UiCommand::ScrollDown(1) && final(self)@ == old(self)@,
                Action::ScrollHalfPageUp => r == UiCommand::ScrollUp(10) && final(self)@ == old(self)@,
                Action::ScrollHalfPageDown => r == UiCommand::ScrollDown(10) && final(self)@ == old(self)@,
                Action::ScrollTop => r is ScrollToTop && final(self)@ == old(self)@,
                Action::ScrollBottom => r is ScrollToBottom && final(self)@ == old(self)@,
                _ => r is Nothing && final(self)@ == old(self)@,
            },
    {
        match action {
            Action::ToggleFullscreen => {
                self.toggle_fullscreen();
                UiCommand::Nothing
            },
            Action::InsertMode => {
                self.terminal_mode = TerminalMode::Insert;
                UiCommand::ScrollToBottom
            },
            Action::ScrollUp => UiCommand::ScrollUp(1),
            Action::ScrollDown => UiCommand::ScrollDown(1),
            Action::ScrollHalfPageUp => UiCommand::ScrollUp(10),
            Action::ScrollHalfPageDown => UiCommand::ScrollDown(10),
            Action::ScrollTop => UiCommand::ScrollToTop,
            Action::ScrollBottom => UiCommand::ScrollToBottom,
            _ => UiCommand::Nothing,
        }
    }

    /// An action bound in the terminal's insert mode.
    pub fn execute_terminal_insert_action(&mut self, action: Action) -> (r: UiCommand)
        requires
            old(self).wf(),
        ensures
            final(self).wf(),
            match action {
                Action::SwitchToShell => r matches UiCommand::Run(AsyncAction::SwitchToShell) && final(self)@ == old(self)@,
                Action::NormalMode => r is Nothing && final(self)@ == (UiView {
                    terminal_mode: TerminalMode::Normal,
                    ..old(self)@
                }),
                _ => r is Nothing && final(self)@ == old(self)@,
            },
    {
        match action {
            Action::SwitchToShell => UiCommand::Run(AsyncAction::SwitchToShell),
            Action::NormalMode => {
                self.terminal_mode = TerminalMode::Normal;
                UiCommand::Nothing
            },
            _ => UiCommand::Nothing,
        }
    }

    /// An action bound in the sidebar. `item` is what the sidebar cursor is
    /// on and `git_panel_enabled` whether the git panel is shown; any action
    /// clears the status message first.
    pub fn execute_sidebar_action(&mut self, action: Action, item: SidebarItem, git_panel_enabled: bool) -> (r:
        UiCommand)
        requires
            old(self).wf(),
        ensures
            final(self).wf(),
            ({
                let v = UiView { status_message: None, ..old(self)@ };
                match action {
                    Action::MoveUp => r is SelectPrev && final(self)@ == v,
                    Action::MoveDown => r is SelectNext && final(self)@ == v,
                    Action::Select => final(self)@ == v && if v.focus == Focus::Sidebar {
                        match item {
                            SidebarItem::Worktree(_) => r is ToggleExpand,
                            SidebarItem::Session(_, _) => r == connect_if_active(v),
                            SidebarItem::Empty => r is Nothing,
                        }
                    } else {
                        r is Nothing
                    },
                    Action::ToggleExpand => r is ToggleExpand && final(self)@ == v,
                    Action::FocusGitStatus => if git_panel_enabled {
                        r matches UiCommand::Run(AsyncAction::LoadGitStatus) && final(self)@ == (UiView {
                            focus: Focus::GitStatus,
                            status_message: Some("Switched to Git Status panel"@),
                            ..v
                        })
                    } else {
                        r is Nothing && final(self)@ == v
                    },
                    Action::CreateSession => r matches UiCommand::Run(AsyncAction::CreateSession)
                        && final(self)@ == v,
                    Action::AddWorktree => final(self)@ == v && if v.focus == Focus::Sidebar {
                        r is StartAddWorktree
                    } else {
                        r is Nothing
                    },
                    Action::ToggleDiffView => final(self)@ == v && if v.right_panel_view
                        == RightPanelView::Diff {
                        r is SwitchToTerminalView
                    } else {
                        r matches UiCommand::Run(AsyncAction::SwitchToDiffView)
                    },
                    Action::DeleteCurrent => r is RequestDelete && final(self)@ == v,
                    Action::RenameSession => final(self)@ == v && if v.focus == Focus::Sidebar
                        && item is Session {
                        r is StartRenameSession
                    } else {
                        r is Nothing
                    },
                    Action::ToggleTreeView => r is ToggleTreeView && final(self)@ == v,
                    Action::RefreshAll => r matches UiCommand::Run(AsyncAction::RefreshAll) && final(self)@ == v,
                    Action::Quit => r is Nothing && final(self)@ == (UiView { should_quit: true, ..v }),
                    _ => r is Nothing && final(self)@ == v,
                }
            }),
    {
        self.status_message = None;
        match action {
            Action::MoveUp => UiCommand::SelectPrev,
            Action::MoveDown => UiCommand::SelectNext,
            Action::Select => {
                if self.focus == Focus::Sidebar {
                    match item {
                        SidebarItem::Worktree(_) => UiCommand::ToggleExpand,
                        SidebarItem::Session(_, _) => if self.has_active_session {
                            UiCommand::Run(AsyncAction::ConnectStream)
                        } else {
                            UiCommand::Nothing
                        },
                        SidebarItem::Empty => UiCommand::Nothing,
                    }
                } else {
                    UiCommand::Nothing
                }
            },
            Action::ToggleExpand => UiCommand::ToggleExpand,
            Action::FocusGitStatus => {
                if git_panel_enabled {
                    self.focus = Focus::GitStatus;
                    self.status_message = Some("Switched to Git Status panel".to_owned());
                    UiCommand::Run(AsyncAction::LoadGitStatus)
                } else {
                    UiCommand::Nothing
                }
            },
            Action::CreateSession => UiCommand::Run(AsyncAction::CreateSession),
            Action::AddWorktree => {
                if self.focus == Focus::Sidebar {
                    UiCommand::StartAddWorktree
                } else {
                    UiCommand::Nothing
                }
            },
            Action::ToggleDiffView => {
                if self.right_panel_view == RightPanelView::Diff {
                    UiCommand::SwitchToTerminalView
                } else {
                    UiCommand::Run(AsyncAction::SwitchToDiffView)
                }
            },
            Action::DeleteCurrent => UiCommand::RequestDelete,
            Action::RenameSession => {
                if self.focus == Focus::Sidebar {
                    if let SidebarItem::Session(_, _) = item {
                        UiCommand::StartRenameSession
                    } else {
                        UiCommand::Nothing
                    }
                } else {
                    UiCommand::Nothing
                }
            },
            Action::ToggleTreeView => UiCommand::ToggleTreeView,
            Action::RefreshAll => UiCommand::Run(AsyncAction::RefreshAll),
            Action::Quit => {
                self.should_quit = true;
                UiCommand::Nothing
            },
            _ => UiCommand::Nothing,
        }
    }
}

/// A worktree to create: on `branch`, a new branch made from `base` when given.
#[derive(Debug)]
pub struct WorktreeRequest {
    pub branch: String,
    pub base: Option<String>,
}

/// The branch the dialog was opened from, if the mode is the add-worktree
/// dialog and it has one.
pub open spec fn dialog_base(mode: InputMode) -> Option<Seq<char>> {
    match mode {
        InputMode::AddWorktree { base_branch } => match base_branch {
            Some(b) => Some(b@),
            None => None,
        },
        _ => None,
    }
}

/// The dialog closed after submitting: normal input, an empty field, the
/// saved focus back.
pub open spec fn submitted(v: UiView) -> UiView {
    restore_focus_spec(
        UiView { input_mode: InputMode::Normal, text: TextInputView { text: Seq::empty(), cursor: 0 }, ..v },
    )
}

impl AddWorktreeDialog {
    /// Submit the dialog: a typed name (trimmed) makes a new branch from the
    /// branch the dialog was opened from; with nothing typed the chosen
    /// existing branch is used; with neither the dialog is cancelled.
    pub fn take_request(&self, ui: &mut UiState, branches: &[String]) -> (r: Option<WorktreeRequest>)
        requires
            old(ui).wf(),
        ensures
            final(ui).wf(),
            if self.input@.len() > 0 {
                &&& final(ui)@ == submitted(old(ui)@)
                &&& r matches Some(q) && q.branch@ == trim_spec(self.input@) && match q.base {
                    Some(b) => dialog_base(old(ui)@.input_mode) == Some(b@),
                    None => dialog_base(old(ui)@.input_mode) is None,
                }
            } else if self.selected < branches@.len() {
                &&& final(ui)@ == submitted(old(ui)@)
                &&& r matches Some(q) && q.branch@ == branches@[self.selected as int]@ && q.base is None
            } else {
                r is None && final(ui)@ == cancelled(old(ui)@)
            },
    {
        let request = if self.input.len() > 0 {
            let typed = string_from_chars(self.input.as_slice());
            let base = match &ui.input_mode {
                InputMode::AddWorktree { base_branch } => match base_branch {
                    Some(b) => Some(b.clone()),
                    None => None,
                },
                _ => None,
            };
            WorktreeRequest { branch: trim(typed.as_str()).to_owned(), base }
        } else if self.selected < branches.len() {
            WorktreeRequest { branch: branches[self.selected].clone(), base: None }
        } else {
            ui.cancel_input();
            return None;
        };
        ui.input_mode = InputMode::Normal;
        ui.text_input.clear();
        ui.restore_focus();
        Some(request)
    }
}

/// The new-branch dialog closed: normal input, an empty field, no status
/// message.
pub open spec fn new_branch_closed(v: UiView) -> UiView {
    UiView {
        input_mode: InputMode::Normal,
        status_message: None,
        text: TextInputView { text: Seq::empty(), cursor: 0 },
        ..v
    }
}

/// A session to rename, and its new name.
#[derive(Debug)]
pub struct SessionRename {
    pub session_id: String,
    pub new_name: String,
}

impl UiState {
    /// Submit the new-branch dialog. Outside that dialog nothing happens.
    /// Otherwise the dialog closes and the trimmed name comes back; an empty
    /// name gives nothing back and an error instead.
    pub fn submit_new_branch(&mut self) -> (r: Option<String>)
        requires
            old(self).wf(),
        ensures
            final(self).wf(),
            !(old(self)@.input_mode is NewBranch) ==> r is None && final(self)@ == old(self)@,
            old(self)@.input_mode is NewBranch ==> ({
                let name = trim_spec(old(self)@.text.text);
                let closed = new_branch_closed(old(self)@);
                if name.len() == 0 {
                    r is None && final(self)@ == (UiView {
                        error_message: Some("Branch name cannot be empty"@),
                        ..closed
                    })
                } else {
                    r matches Some(n) && n@ == name && final(self)@ == closed
                }
            }),
    {
        match self.input_mode {
            InputMode::NewBranch => {},
            _ => return None,
        }
        let name = self.text_input.trim().to_owned();
        self.input_mode = InputMode::Normal;
        self.text_input.clear();
        self.status_message = None;
        if name.as_str().unicode_len() == 0 {
            self.error_message = Some("Branch name cannot be empty".to_owned());
            None
        } else {
            Some(name)
        }
    }

    /// Submit the rename dialog. Outside that dialog nothing happens.
    /// Otherwise the dialog closes with the saved focus back, and the session
    /// and its trimmed new name come back; an empty name gives nothing back
    /// and an error instead.
    pub fn submit_rename_session(&mut self) -> (r: Option<SessionRename>)
        requires
            old(self).wf(),
        ensures
            final(self).wf(),
            !(old(self)@.input_mode is RenameSession) ==> r is None && final(self)@ == old(self)@,
            old(self)@.input_mode matches InputMode::RenameSession { session_id } ==> ({
                let name = trim_spec(old(self)@.text.text);
                let closed = submitted(old(self)@);
                if name.len() == 0 {
                    r is None && final(self)@ == (UiView {
                        error_message: Some("Session name cannot be empty"@),
                        ..closed
                    })
                } else {
                    r matches Some(q) && q.session_id@ == session_id@ && q.new_name@ == name
                        && final(self)@ == closed
                }
            }),
    {
        let session_id = match &self.input_mode {
            InputMode::RenameSession { session_id } => session_id.clone(),
            _ => return None,
        };
        let new_name = self.text_input.trim().to_owned();
        self.input_mode = InputMode::Normal;
        self.text_input.clear();
        self.restore_focus();
        if new_name.as_str().unicode_len() == 0 {
            self.error_message = Some("Session name cannot be empty".to_owned());
            None
        } else {
            Some(SessionRename { session_id, new_name })
        }
    }

    /// Open the rename dialog for the selected session, if there is one: the
    /// focus is saved and the field holds the session's name.
    pub fn start_rename_session(&mut self, session: Option<&SessionInfo>)
        requires
            old(self).wf(),
        ensures
            final(self).wf(),
            match session {
                None => final(self)@ == old(self)@,
                Some(s) => {
                    &&& final(self)@.input_mode matches InputMode::RenameSession { session_id }
                        && session_id@ == s.id@
                    &&& final(self)@ == (UiView {
                        input_mode: final(self)@.input_mode,
                        text: TextInputView { text: s.name@, cursor: s.name@.len() },
                        ..save_focus_spec(old(self)@)
                    })
                },
            },
    {
        if let Some(s) = session {
            self.save_focus();
            self.input_mode = InputMode::RenameSession { session_id: s.id.clone() };
            self.text_input.set_content(s.name.as_str());
        }
    }

    /// Open the add-worktree dialog from a branch (`None`: HEAD): the field
    /// is empty and the first branch is chosen.
    pub fn start_add_worktree(&mut self, base_branch: Option<String>) -> (r: AddWorktreeDialog)
        requires
            old(self).wf(),
        ensures
            final(self).wf(),
            final(self)@ == (UiView {
                input_mode: InputMode::AddWorktree { base_branch },
                text: TextInputView { text: Seq::empty(), cursor: 0 },
                ..old(self)@
            }),
            r.input@.len() == 0,
            r.selected == 0,
    {
        self.input_mode = InputMode::AddWorktree { base_branch };
        self.text_input.clear();
        AddWorktreeDialog { input: Vec::new(), selected: 0 }
    }
}

/// What moving the selection of the focused panel does: the states and
/// redraw marks before and after, the attached session `active`, and `r`,
/// the action to queue and the session to attach to.
pub open spec fn selection_moved(
    focus: Focus,
    up: bool,
    repo_before: RepoState,
    repo_after: RepoState,
    git_before: GitPanel,
    git_after: GitPanel,
    diff_before: DiffState,
    diff_after: DiffState,
    dirty_before: DirtyFlags,
    dirty_after: DirtyFlags,
    active: Option<Seq<char>>,
    r: (Option<AsyncAction>, Option<Seq<char>>),
) -> bool {
    &&& (focus != Focus::Sidebar ==> repo_after == repo_before)
    &&& (focus != Focus::GitStatus ==> git_after == git_before)
    &&& (focus != Focus::DiffFiles ==> diff_after == diff_before)
    &&& (match focus {
            Focus::Sidebar => repo_before.sidebar_moved(
                repo_after,
                up,
                dirty_before,
                dirty_after,
                active,
                r.0,
                r.1,
            ),
            Focus::GitStatus => {
                let to = if up {
                    row_up(git_before.cursor)
                } else {
                    row_down(git_before.cursor, outline_total(panel_rows(git_before.files@, git_before.expanded_sections@)))
                };
                &&& r.0 is None && r.1 is None
                &&& git_after == (GitPanel { cursor: git_after.cursor, ..git_before })
                &&& match to {
                    Some(c) => git_after.cursor == c && sidebar_marked(dirty_before, dirty_after),
                    None => git_after.cursor == git_before.cursor && dirty_after == dirty_before,
                }
            },
            Focus::DiffFiles => {
                let to = if up {
                    row_up(diff_before.cursor)
                } else {
                    row_down(diff_before.cursor, outline_total(diff_before.rows()))
                };
                &&& r.0 is None && r.1 is None
                &&& diff_after == (DiffState { cursor: diff_after.cursor, ..diff_before })
                &&& match to {
                    Some(c) => diff_after.cursor == c && sidebar_marked(dirty_before, dirty_after),
                    None => diff_after.cursor == diff_before.cursor && dirty_after == dirty_before,
                }
            },
            _ => r.0 is None && r.1 is None && dirty_after == dirty_before,
        })
}

/// Move the selection of the focused panel one row (up, or down): the
/// sidebar tree (see `RepoState::sidebar_move`), the git panel or the diff
/// view; a cursor that moved in the git panel or the diff view marks the
/// sidebar for redrawing. Other panels do not move. The result is the
/// action to queue and the session to attach the terminal to, if any;
/// `active` is the attached session.
pub fn move_selection(
    ui: &UiState,
    up: bool,
    repo: &mut RepoState,
    git: &mut GitPanel,
    diff: &mut DiffState,
    dirty: &mut DirtyFlags,
    active: &Option<String>,
) -> (r: (Option<AsyncAction>, Option<String>))
    requires
        old(repo).wf(),
        outline_total(old(repo).rows()) <= usize::MAX,
        outline_total(panel_rows(old(git).files@, old(git).expanded_sections@)) <= usize::MAX,
        old(diff).wf(),
        old(diff).fits(),
    ensures
        final(repo).wf(),
        final(diff).wf(),
        selection_moved(
            ui.focus,
            up,
            *old(repo),
            *final(repo),
            *old(git),
            *final(git),
            *old(diff),
            *final(diff),
            *old(dirty),
            *final(dirty),
            opt_str(*active),
            (r.0, opt_str(r.1)),
        ),
{
    match ui.focus {
        Focus::Sidebar => repo.sidebar_move(up, dirty, active),
        Focus::GitStatus => {
            let moved = if up {
                git.move_up()
            } else {
                git.move_down()
            };
            if moved {
                dirty.sidebar = true;
            }
            (None, None)
        },
        Focus::DiffFiles => {
            let moved = if up {
                diff.move_up()
            } else {
                diff.move_down()
            };
            if moved {
                dirty.sidebar = true;
            }
            (None, None)
        },
        _ => (None, None),
    }
}

/// Terminal scrolling, which the terminal emulator carries out.
#[derive(Debug, PartialEq, Eq)]
pub enum TerminalScroll {
    /// This many lines back
    Up(usize),
    /// This many lines forward
    Down(usize),
    /// To the oldest line
    Top,
    /// To the newest line
    Bottom,
}

/// What is left for the caller once a command has been applied.
#[derive(Debug)]
pub struct Followup {
    /// Work to queue
    pub run: Option<AsyncAction>,
    /// The session to attach the terminal to
    pub attach: Option<String>,
    /// Scrolling for the terminal emulator
    pub scroll: Option<TerminalScroll>,
}

/// The terminal scrolling a command asks for, if any.
pub open spec fn scroll_of(cmd: UiCommand) -> Option<TerminalScroll> {
    match cmd {
        UiCommand::ScrollUp(n) => Some(TerminalScroll::Up(n)),
        UiCommand::ScrollDown(n) => Some(TerminalScroll::Down(n)),
        UiCommand::ScrollToTop => Some(TerminalScroll::Top),
        UiCommand::ScrollToBottom => Some(TerminalScroll::Bottom),
        _ => None,
    }
}

/// Carry out what a key handler left to do: queue work, switch repositories,
/// move the selection, expand a worktree, switch the sidebar's view, open the
/// add-worktree, delete or rename dialog, or leave the diff view; terminal
/// scrolling is handed on. `active` is the attached session.
pub fn apply_command(
    cmd: UiCommand,
    ui: &mut UiState,
    repos: &mut RepoList,
    repo: &mut RepoState,
    git: &mut GitPanel,
    diff: &mut DiffState,
    dirty: &mut DirtyFlags,
    dialog: &mut AddWorktreeDialog,
    active: &Option<String>,
) -> (r: Followup)
    requires
        old(ui).wf(),
        old(repo).wf(),
        outline_total(old(repo).rows()) <= usize::MAX,
        outline_total(panel_rows(old(git).files@, old(git).expanded_sections@)) <= usize::MAX,
        old(diff).wf(),
        old(diff).fits(),
    ensures
        final(ui).wf(),
        final(repo).wf(),
        final(diff).wf(),
        r.scroll == scroll_of(cmd),
        !(cmd is SwitchRepo) ==> *final(repos) == *old(repos),
        !(cmd is SelectPrev || cmd is SelectNext || cmd is ToggleExpand) ==> *final(repo) == *old(repo),
        !(cmd is SelectPrev || cmd is SelectNext) ==> *final(git) == *old(git),
        !(cmd is SelectPrev || cmd is SelectNext || cmd is SwitchToTerminalView) ==> *final(diff)
            == *old(diff),
        !(cmd is SelectPrev || cmd is SelectNext || cmd is ToggleExpand || cmd is ToggleTreeView)
            ==> *final(dirty) == *old(dirty),
        !(cmd is StartAddWorktree) ==> *final(dialog) == *old(dialog),
        !(cmd is SelectPrev || cmd is SelectNext) ==> r.attach is None,
        match cmd {
            UiCommand::Run(a) => r.run == Some(a) && final(ui)@ == old(ui)@,
            UiCommand::SwitchRepo(idx) => {
                &&& final(ui)@ == old(ui)@
                &&& final(repos).order == old(repos).order
                &&& if idx < old(repos).order@.len() && opt_str(old(repos).current) != Some(
                    old(repos).order@[idx as int]@,
                ) {
                    &&& r.run matches Some(AsyncAction::RefreshBranches)
                    &&& final(repos).current matches Some(c) && c@ == old(repos).order@[idx as int]@
                } else {
                    r.run is None && final(repos).current == old(repos).current
                }
            },
            UiCommand::SelectPrev => final(ui)@ == old(ui)@ && selection_moved(
                old(ui).focus,
                true,
                *old(repo),
                *final(repo),
                *old(git),
                *final(git),
                *old(diff),
                *final(diff),
                *old(dirty),
                *final(dirty),
                opt_str(*active),
                (r.run, opt_str(r.attach)),
            ),
            UiCommand::SelectNext => final(ui)@ == old(ui)@ && selection_moved(
                old(ui).focus,
                false,
                *old(repo),
                *final(repo),
                *old(git),
                *final(git),
                *old(diff),
                *final(diff),
                *old(dirty),
                *final(dirty),
                opt_str(*active),
                (r.run, opt_str(r.attach)),
            ),
            UiCommand::ToggleExpand => final(ui)@ == old(ui)@ && old(repo).sidebar_toggled(
                *final(repo),
                *old(dirty),
                *final(dirty),
                r.run,
            ),
            UiCommand::ToggleTreeView => {
                &&& r.run is None
                &&& final(ui)@ == (UiView { tree_view_enabled: !old(ui)@.tree_view_enabled, ..old(ui)@ })
                &&& sidebar_marked(*old(dirty), *final(dirty))
            },
            UiCommand::StartAddWorktree => {
                &&& r.run is None
                &&& final(ui)@.input_mode matches InputMode::AddWorktree { base_branch } && opt_str(
                    base_branch,
                ) == old(repo).current_branch()
                &&& final(ui)@ == (UiView {
                    input_mode: final(ui)@.input_mode,
                    text: TextInputView { text: Seq::empty(), cursor: 0 },
                    ..old(ui)@
                })
                &&& final(dialog).input@.len() == 0
                &&& final(dialog).selected == 0
            },
            UiCommand::RequestDelete => r.run is None && exists|req: DeleteRequest|
                old(repo).delete_requested(old(ui).focus, req) && final(ui)@
                    == apply_delete_request_spec(old(ui)@, req),
            UiCommand::StartRenameSession => {
                &&& r.run is None
                &&& if old(repo).session_idx < old(repo).sessions@.len() {
                    let s = old(repo).sessions@[old(repo).session_idx as int];
                    &&& final(ui)@.input_mode matches InputMode::RenameSession { session_id }
                        && session_id@ == s.id@
                    &&& final(ui)@ == (UiView {
                        input_mode: final(ui)@.input_mode,
                        text: TextInputView { text: s.name@, cursor: s.name@.len() },
                        ..save_focus_spec(old(ui)@)
                    })
                } else {
                    final(ui)@ == old(ui)@
                }
            },
            UiCommand::SwitchToTerminalView => {
                &&& r.run is None
                &&& final(ui)@ == (UiView {
                    right_panel_view: RightPanelView::Terminal,
                    focus: Focus::Sidebar,
                    ..old(ui)@
                })
                &&& final(diff).files@.len() == 0
                &&& final(diff).cursor == 0
                &&& final(diff).scroll_offset == 0
                &&& final(diff).fullscreen == old(diff).fullscreen
            },
            _ => r.run is None && final(ui)@ == old(ui)@,
        },
{
    let scroll = match &cmd {
        UiCommand::ScrollUp(n) => Some(TerminalScroll::Up(*n)),
        UiCommand::ScrollDown(n) => Some(TerminalScroll::Down(*n)),
        UiCommand::ScrollToTop => Some(TerminalScroll::Top),
        UiCommand::ScrollToBottom => Some(TerminalScroll::Bottom),
        _ => None,
    };
    match cmd {
        UiCommand::Run(a) => Followup { run: Some(a), attach: None, scroll },
        UiCommand::SwitchRepo(idx) => Followup { run: repos.switch_repo(idx), attach: None, scroll },
        UiCommand::SelectPrev => {
            let (run, attach) = move_selection(ui, true, repo, git, diff, dirty, active);
            Followup { run, attach, scroll }
        },
        UiCommand::SelectNext => {
            let (run, attach) = move_selection(ui, false, repo, git, diff, dirty, active);
            Followup { run, attach, scroll }
        },
        UiCommand::ToggleExpand => Followup { run: repo.toggle_sidebar_expand(dirty), attach: None, scroll },
        UiCommand::ToggleTreeView => {
            ui.tree_view_enabled = !ui.tree_view_enabled;
            dirty.sidebar = true;
            Followup { run: None, attach: None, scroll }
        },
        UiCommand::StartAddWorktree => {
            let base = match repo.current_worktree() {
                Some(w) => Some(w.branch.clone()),
                None => None,
            };
            *dialog = ui.start_add_worktree(base);
            Followup { run: None, attach: None, scroll }
        },
        UiCommand::RequestDelete => {
            let req = repo.request_delete(ui.focus);
            ui.apply_delete_request(req);
            Followup { run: None, attach: None, scroll }
        },
        UiCommand::StartRenameSession => {
            ui.start_rename_session(repo.current_session());
            Followup { run: None, attach: None, scroll }
        },
        UiCommand::SwitchToTerminalView => {
            switch_to_terminal_view(ui, diff);
            Followup { run: None, attach: None, scroll }
        },
        _ => Followup { run: None, attach: None, scroll },
    }
}

/// The delete key on a session row of the sidebar opens the confirmation for
/// that session: the navigation handler asks to delete, and applying the
/// request asks to confirm deleting the session under the cursor, with the
/// focus saved and the right panel as it was.
pub proof fn law_delete_key_confirms_session(
    v: UiView,
    key: KeyEvent,
    item: SidebarItem,
    git_panel_enabled: bool,
    repo: RepoState,
    i: usize,
    k: usize,
    req: DeleteRequest,
)
    requires
        key.code == KeyCode::Char('d'),
        v.focus == Focus::Sidebar,
        outline_item_spec(repo.rows(), repo.sidebar_cursor as int, OutlineItem::Child(i, k)),
        repo.delete_requested(v.focus, req),
    ensures
        navigation_spec(v, key, item, git_panel_enabled) == (
        UiView { status_message: None, ..v },
        UiCommand::RequestDelete,
        ),
        ({
            let w = apply_delete_request_spec(UiView { status_message: None, ..v }, req);
            let s = repo.sessions_by_worktree@[i as int]->Some_0@[k as int];
            &&& w.input_mode matches InputMode::ConfirmDelete(DeleteTarget::Session { session_id, name })
                && session_id@ == s.id@ && name@ == s.name@
            &&& w.saved_focus == v.saved_focus.push(Focus::Sidebar)
            &&& w.right_panel_view == v.right_panel_view
            &&& w.focus == v.focus
        }),
{
    let rows = repo.rows();
    let c = repo.sidebar_cursor as int;
    match req {
        DeleteRequest::Refused(_) => {
            let j = choose|j: usize| #[trigger] outline_item_spec(rows, c, OutlineItem::Header(j));
            law_outline_rows_are_unique(rows, c, OutlineItem::Header(j), OutlineItem::Child(i, k));
        },
        DeleteRequest::Nothing => {
            law_outline_rows_are_unique(rows, c, OutlineItem::Beyond, OutlineItem::Child(i, k));
        },
        DeleteRequest::Confirm(_) => {
            if exists|j: usize| #[trigger] outline_item_spec(rows, c, OutlineItem::Header(j)) {
                let j = choose|j: usize| #[trigger] outline_item_spec(rows, c, OutlineItem::Header(j));
                law_outline_rows_are_unique(rows, c, OutlineItem::Header(j), OutlineItem::Child(i, k));
            } else {
                assert forall|i2: usize, k2: usize| #[trigger]
                    outline_item_spec(rows, c, OutlineItem::Child(i2, k2)) implies i2 == i && k2 == k by {
                    law_outline_rows_are_unique(rows, c, OutlineItem::Child(i2, k2), OutlineItem::Child(i, k));
                }
            }
        },
    }
}

} // verus!
