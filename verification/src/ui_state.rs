//! The interface state that key handling moves between: focus (with the stack
//! of focuses that dialogs return to), the terminal's modes, the right panel,
//! the input mode and its text field. Key handlers are functions from this
//! state and a key (or a bound action) to the next state and a command, which
//! the caller carries out where it needs the daemon or the repository lists.

use vstd::prelude::*;
use crate::actions::Action;
use crate::keys::{KeyCode, KeyEvent};
use crate::state::{AsyncAction, Focus, InputMode, PrefixMode, RightPanelView, SidebarItem, TerminalMode};
use crate::text_input::{TextInput, TextInputView};
use crate::repo::DeleteRequest;

verus! {

/// What a key handler leaves for its caller to do.
#[derive(Debug, PartialEq, Eq)]
pub enum UiCommand {
    /// Queue this action
    Run(AsyncAction),
    /// Switch to the repository at this position
    SwitchRepo(usize),
    /// Move the selection up in the focused list
    SelectPrev,
    /// Move the selection down in the focused list
    SelectNext,
    /// Expand or collapse the worktree under the sidebar cursor
    ToggleExpand,
    /// Switch between the tree view and the branch/session lists
    ToggleTreeView,
    /// Open the add-worktree dialog from the selected worktree
    StartAddWorktree,
    /// Ask to confirm deleting the selected item
    RequestDelete,
    /// Open the rename dialog for the selected session
    StartRenameSession,
    /// Leave the diff view for the terminal
    SwitchToTerminalView,
    /// Scroll the terminal this many lines back
    ScrollUp(usize),
    /// Scroll the terminal this many lines forward
    ScrollDown(usize),
    /// Scroll the terminal to its oldest line
    ScrollToTop,
    /// Scroll the terminal to its newest line
    ScrollToBottom,
    /// Nothing more to do
    Nothing,
}

/// The interface state.
#[derive(Debug)]
pub struct UiState {
    pub focus: Focus,
    /// Focuses to return to when dialogs close, the latest last
    pub saved_focus_stack: Vec<Focus>,
    pub right_panel_view: RightPanelView,
    pub input_mode: InputMode,
    pub prefix_mode: PrefixMode,
    pub terminal_mode: TerminalMode,
    pub fullscreen: bool,
    pub is_interactive: bool,
    pub tree_view_enabled: bool,
    /// Whether a session is attached to the terminal
    pub has_active_session: bool,
    pub should_quit: bool,
    pub status_message: Option<String>,
    /// The last failure to show in the status bar
    pub error_message: Option<String>,
    pub text_input: TextInput,
}

/// The interface state as values.
pub struct UiView {
    pub focus: Focus,
    pub saved_focus: Seq<Focus>,
    pub right_panel_view: RightPanelView,
    pub input_mode: InputMode,
    pub prefix_mode: PrefixMode,
    pub terminal_mode: TerminalMode,
    pub fullscreen: bool,
    pub is_interactive: bool,
    pub tree_view_enabled: bool,
    pub has_active_session: bool,
    pub should_quit: bool,
    pub status_message: Option<Seq<char>>,
    pub error_message: Option<Seq<char>>,
    pub text: TextInputView,
}

impl View for UiState {
    type V = UiView;

    open spec fn view(&self) -> UiView {
        UiView {
            focus: self.focus,
            saved_focus: self.saved_focus_stack@,
            right_panel_view: self.right_panel_view,
            input_mode: self.input_mode,
            prefix_mode: self.prefix_mode,
            terminal_mode: self.terminal_mode,
            fullscreen: self.fullscreen,
            is_interactive: self.is_interactive,
            tree_view_enabled: self.tree_view_enabled,
            has_active_session: self.has_active_session,
            should_quit: self.should_quit,
            status_message: match self.status_message {
                Some(m) => Some(m@),
                None => None,
            },
            error_message: match self.error_message {
                Some(m) => Some(m@),
                None => None,
            },
            text: self.text_input@,
        }
    }
}

/// The focus pushed onto the stack.
pub open spec fn save_focus_spec(v: UiView) -> UiView {
    UiView { saved_focus: v.saved_focus.push(v.focus), ..v }
}

/// The latest saved focus taken back, if there is one.
pub open spec fn restore_focus_spec(v: UiView) -> UiView {
    if v.saved_focus.len() > 0 {
        UiView { focus: v.saved_focus.last(), saved_focus: v.saved_focus.drop_last(), ..v }
    } else {
        v
    }
}

/// The state after a delete request: the focus saved, then the confirmation
/// dialog open or the refusal shown; nothing else changes.
pub open spec fn apply_delete_request_spec(v: UiView, req: DeleteRequest) -> UiView {
    let saved = save_focus_spec(v);
    match req {
        DeleteRequest::Confirm(mode) => UiView { input_mode: mode, ..saved },
        DeleteRequest::Refused(msg) => UiView { error_message: Some(msg@), ..saved },
        DeleteRequest::Nothing => saved,
    }
}

/// Restoring the focus right after saving it gives back the state as it was:
/// the same focus and the same stack.
pub proof fn law_restore_undoes_save(v: UiView)
    ensures
        restore_focus_spec(save_focus_spec(v)) == v,
{
    assert(v.saved_focus.push(v.focus).drop_last() =~= v.saved_focus);
}

/// Leaving the terminal: out of fullscreen if it was, else back to the
/// sidebar in normal mode.
pub open spec fn exit_terminal_spec(v: UiView) -> UiView {
    if v.fullscreen {
        UiView { fullscreen: false, ..v }
    } else {
        UiView {
            focus: Focus::Sidebar,
            terminal_mode: TerminalMode::Normal,
            is_interactive: false,
            ..v
        }
    }
}

/// Leaving the terminal when it has the focus.
pub open spec fn leave_terminal_spec(v: UiView) -> UiView {
    if v.focus == Focus::Terminal {
        exit_terminal_spec(v)
    } else {
        v
    }
}

/// The help shown for an action that the prefix key does not offer.
pub open spec fn prefix_help() -> Seq<char> {
    "Prefix: w=sidebar g=git v=diff t=terminal n=new d=delete r=refresh q=quit"@
}

/// What an action bound behind the prefix key does.
pub open spec fn prefix_action_spec(v: UiView, action: Action) -> (UiView, UiCommand) {
    match action {
        Action::FocusBranches => (UiView { focus: Focus::Branches, ..leave_terminal_spec(v) }, UiCommand::Nothing),
        Action::FocusSessions => (
            UiView {
                focus: if v.tree_view_enabled {
                    Focus::Sidebar
                } else {
                    Focus::Sessions
                },
                ..leave_terminal_spec(v)
            },
            UiCommand::Nothing,
        ),
        Action::FocusTerminal => (
            v,
            if v.has_active_session {
                UiCommand::Run(AsyncAction::ConnectStream)
            } else {
                UiCommand::Nothing
            },
        ),
        Action::CreateSession => (leave_terminal_spec(v), UiCommand::Run(AsyncAction::CreateSession)),
        Action::AddWorktree => (
            UiView { focus: Focus::Branches, ..save_focus_spec(leave_terminal_spec(v)) },
            UiCommand::StartAddWorktree,
        ),
        Action::DeleteCurrent => (leave_terminal_spec(v), UiCommand::RequestDelete),
        Action::RefreshAll => (v, UiCommand::Run(AsyncAction::RefreshAll)),
        Action::ToggleFullscreen => (
            if v.focus == Focus::Terminal || v.has_active_session {
                UiView { fullscreen: !v.fullscreen, ..v }
            } else {
                v
            },
            UiCommand::Nothing,
        ),
        Action::NormalMode => (
            if v.focus == Focus::Terminal && v.terminal_mode == TerminalMode::Insert {
                UiView { terminal_mode: TerminalMode::Normal, ..v }
            } else {
                v
            },
            UiCommand::Nothing,
        ),
        Action::FocusSidebar => (UiView { focus: Focus::Sidebar, ..leave_terminal_spec(v) }, UiCommand::Nothing),
        Action::FocusGitStatus => (
            UiView { focus: Focus::GitStatus, ..leave_terminal_spec(v) },
            UiCommand::Run(AsyncAction::LoadGitStatus),
        ),
        Action::FocusDiff => (
            UiView {
                focus: Focus::DiffFiles,
                right_panel_view: RightPanelView::Diff,
                ..leave_terminal_spec(v)
            },
            UiCommand::Run(AsyncAction::LoadDiffFiles),
        ),
        Action::OpenTodo => (
            UiView { input_mode: InputMode::TodoPopup, ..save_focus_spec(leave_terminal_spec(v)) },
            UiCommand::Run(AsyncAction::LoadTodos),
        ),
        Action::Quit => (UiView { should_quit: true, ..v }, UiCommand::Nothing),
        _ => (UiView { status_message: Some(prefix_help()), ..v }, UiCommand::Nothing),
    }
}

/// The command that connects the terminal when a session is attached.
pub open spec fn connect_if_active(v: UiView) -> UiCommand {
    if v.has_active_session {
        UiCommand::Run(AsyncAction::ConnectStream)
    } else {
        UiCommand::Nothing
    }
}

/// What a key does while navigating the sidebar, given the item under the
/// sidebar cursor and whether the git panel is on. Any key clears the status
/// message first.
pub open spec fn navigation_spec(
    v0: UiView,
    key: KeyEvent,
    item: SidebarItem,
    git_panel_enabled: bool,
) -> (UiView, UiCommand) {
    let v = UiView { status_message: None, ..v0 };
    match key.code {
        KeyCode::Char(c) if '1' <= c <= '9' => (v, UiCommand::SwitchRepo((c as u32 - '1' as u32) as usize)),
        KeyCode::Tab => match v.focus {
            Focus::Sidebar => (
                v,
                if item is Session {
                    connect_if_active(v)
                } else {
                    UiCommand::Nothing
                },
            ),
            Focus::Branches => (UiView { focus: Focus::Sessions, ..v }, UiCommand::Nothing),
            Focus::Sessions => (v, connect_if_active(v)),
            _ => (v, UiCommand::Nothing),
        },
        KeyCode::Esc | KeyCode::BackTab => match v.focus {
            Focus::GitStatus => (UiView { focus: Focus::Sidebar, ..v }, UiCommand::Nothing),
            Focus::Sessions => (UiView { focus: Focus::Branches, ..v }, UiCommand::Nothing),
            _ => (v, UiCommand::Nothing),
        },
        KeyCode::Up | KeyCode::Char('k') => (v, UiCommand::SelectPrev),
        KeyCode::Down | KeyCode::Char('j') => (v, UiCommand::SelectNext),
        KeyCode::Enter => match v.focus {
            Focus::Sidebar => (
                v,
                match item {
                    SidebarItem::Worktree(_) => UiCommand::ToggleExpand,
                    SidebarItem::Session(_, _) => connect_if_active(v),
                    SidebarItem::Empty => UiCommand::Nothing,
                },
            ),
            Focus::Branches => (UiView { focus: Focus::Sessions, ..v }, UiCommand::Nothing),
            Focus::Sessions => (v, connect_if_active(v)),
            _ => (v, UiCommand::Nothing),
        },
        KeyCode::Char('o') if v.focus == Focus::Sidebar => (v, UiCommand::ToggleExpand),
        KeyCode::Char('T') => (v, UiCommand::ToggleTreeView),
        KeyCode::Char('g') if v.focus == Focus::Sidebar && git_panel_enabled => (
            UiView {
                focus: Focus::GitStatus,
                status_message: Some("Switched to Git Status panel"@),
                ..v
            },
            UiCommand::Run(AsyncAction::LoadGitStatus),
        ),
        KeyCode::Char('n') => (v, UiCommand::Run(AsyncAction::CreateSession)),
        KeyCode::Char('a') if v.focus == Focus::Branches || v.focus == Focus::Sidebar => (
            v,
            UiCommand::StartAddWorktree,
        ),
        KeyCode::Char('t') => (
            v,
            if v.right_panel_view == RightPanelView::Diff {
                UiCommand::SwitchToTerminalView
            } else {
                UiCommand::Run(AsyncAction::SwitchToDiffView)
            },
        ),
        KeyCode::Char('d') | KeyCode::Char('x') => (v, UiCommand::RequestDelete),
        KeyCode::Char('R') if v.focus == Focus::Sessions => (v, UiCommand::StartRenameSession),
        KeyCode::Char('R') if v.focus == Focus::Sidebar => (
            v,
            if item is Session {
                UiCommand::StartRenameSession
            } else {
                UiCommand::Nothing
            },
        ),
        KeyCode::Char('r') => (v, UiCommand::Run(AsyncAction::RefreshAll)),
        KeyCode::Char('q') => (UiView { should_quit: true, ..v }, UiCommand::Nothing),
        _ => (v, UiCommand::Nothing),
    }
}

impl UiState {
    /// The text field is well formed.
    pub open spec fn wf(&self) -> bool {
        self.text_input.wf()
    }

    /// The state the interface starts in: the sidebar has the focus and
    /// nothing is saved, the terminal is on the right in normal mode and not
    /// fullscreen, no dialog is open and the prefix key is idle, no session
    /// is attached, no message shows and the field is empty; the sidebar
    /// shows the tree when `tree_view_enabled`.
    pub fn new(tree_view_enabled: bool) -> (r: Self)
        ensures
            r.wf(),
            r@ == (UiView {
                focus: Focus::Sidebar,
                saved_focus: Seq::empty(),
                right_panel_view: RightPanelView::Terminal,
                input_mode: InputMode::Normal,
                prefix_mode: PrefixMode::Inactive,
                terminal_mode: TerminalMode::Normal,
                fullscreen: false,
                is_interactive: false,
                tree_view_enabled,
                has_active_session: false,
                should_quit: false,
                status_message: None,
                error_message: None,
                text: TextInputView { text: Seq::empty(), cursor: 0 },
            }),
    {
        UiState {
            focus: Focus::Sidebar,
            saved_focus_stack: Vec::new(),
            right_panel_view: RightPanelView::Terminal,
            input_mode: InputMode::Normal,
            prefix_mode: PrefixMode::Inactive,
            terminal_mode: TerminalMode::Normal,
            fullscreen: false,
            is_interactive: false,
            tree_view_enabled,
            has_active_session: false,
            should_quit: false,
            status_message: None,
            error_message: None,
            text_input: TextInput::new(),
        }
    }

    /// Remember the focus, to come back to it when a dialog closes.
    pub fn save_focus(&mut self)
        requires
            old(self).wf(),
        ensures
            final(self).wf(),
            final(self)@ == save_focus_spec(old(self)@),
    {
        self.saved_focus_stack.push(self.focus);
    }

    /// Act on a delete request: remember the focus, then open the
    /// confirmation dialog, or show why nothing can be deleted.
    pub fn apply_delete_request(&mut self, req: DeleteRequest)
        requires
            old(self).wf(),
        ensures
            final(self).wf(),
            final(self)@ == apply_delete_request_spec(old(self)@, req),
    {
        self.save_focus();
        match req {
            DeleteRequest::Confirm(mode) => {
                self.input_mode = mode;
            },
            DeleteRequest::Refused(msg) => {
                self.error_message = Some(msg);
            },
            DeleteRequest::Nothing => {},
        }
    }

    /// Go back to the latest saved focus; whether there was one.
    pub fn restore_focus(&mut self) -> (r: bool)
        requires
            old(self).wf(),
        ensures
            final(self).wf(),
            r == (old(self)@.saved_focus.len() > 0),
            final(self)@ == restore_focus_spec(old(self)@),
    {
        match self.saved_focus_stack.pop() {
            Some(saved) => {
                self.focus = saved;
                true
            },
            None => false,
        }
    }

    /// Enter the terminal in insert mode, when a session is attached: the
    /// terminal takes the focus; whether it entered. The caller then scrolls
    /// the terminal to its newest line and opens the session's stream when
    /// none is open.
    pub fn enter_terminal(&mut self) -> (r: bool)
        requires
            old(self).wf(),
        ensures
            final(self).wf(),
            r == old(self).has_active_session,
            r ==> final(self)@ == (UiView { focus: Focus::Terminal, terminal_mode: TerminalMode::Insert, ..old(self)@ }),
            !r ==> final(self)@ == old(self)@,
    {
        if self.has_active_session {
            self.focus = Focus::Terminal;
            self.terminal_mode = TerminalMode::Insert;
            true
        } else {
            false
        }
    }

    /// Leave the terminal: out of fullscreen if it was, else back to the
    /// sidebar in normal mode.
    pub fn exit_terminal(&mut self)
        requires
            old(self).wf(),
        ensures
            final(self).wf(),
            final(self)@ == exit_terminal_spec(old(self)@),
    {
        if self.fullscreen {
            self.fullscreen = false;
        } else {
            self.focus = Focus::Sidebar;
            self.terminal_mode = TerminalMode::Normal;
            self.is_interactive = false;
        }
    }

    fn leave_terminal(&mut self)
        requires
            old(self).wf(),
        ensures
            final(self).wf(),
            final(self)@ == leave_terminal_spec(old(self)@),
    {
        if self.focus == Focus::Terminal {
            self.exit_terminal();
        }
    }

    /// Switch fullscreen on or off.
    pub fn toggle_fullscreen(&mut self)
        requires
            old(self).wf(),
        ensures
            final(self).wf(),
            final(self)@ == (UiView { fullscreen: !old(self)@.fullscreen, ..old(self)@ }),
    {
        self.fullscreen = !self.fullscreen;
    }

    /// Close a dialog without acting: back to normal input with an empty text
    /// field and no message, at the focus saved when it opened.
    pub fn cancel_input(&mut self)
        requires
            old(self).wf(),
        ensures
            final(self).wf(),
            final(self)@ == restore_focus_spec(
                UiView {
                    input_mode: InputMode::Normal,
                    status_message: None,
                    text: TextInputView { text: Seq::empty(), cursor: 0 },
                    ..old(self)@
                },
            ),
    {
        self.input_mode = InputMode::Normal;
        self.text_input.clear();
        self.status_message = None;
        self.restore_focus();
    }

    /// Carry out an action bound behind the prefix key.
    #[verifier::rlimit(40)]
    pub fn execute_prefix_action(&mut self, action: Action) -> (r: UiCommand)
        requires
            old(self).wf(),
        ensures
            final(self).wf(),
            (final(self)@, r) == prefix_action_spec(old(self)@, action),
    {
        match action {
            Action::FocusBranches => {
                self.leave_terminal();
                self.focus = Focus::Branches;
                UiCommand::Nothing
            },
            Action::FocusSessions => {
                self.leave_terminal();
                self.focus = if self.tree_view_enabled {
                    Focus::Sidebar
                } else {
                    Focus::Sessions
                };
                UiCommand::Nothing
            },
            Action::FocusTerminal => {
                if self.has_active_session {
                    UiCommand::Run(AsyncAction::ConnectStream)
                } else {
                    UiCommand::Nothing
                }
            },
            Action::CreateSession => {
                self.leave_terminal();
                UiCommand::Run(AsyncAction::CreateSession)
            },
            Action::AddWorktree => {
                self.leave_terminal();
                self.save_focus();
                self.focus = Focus::Branches;
                UiCommand::StartAddWorktree
            },
            Action::DeleteCurrent => {
                self.leave_terminal();
                UiCommand::RequestDelete
            },
            Action::RefreshAll => UiCommand::Run(AsyncAction::RefreshAll),
            Action::ToggleFullscreen => {
                if self.focus == Focus::Terminal || self.has_active_session {
                    self.toggle_fullscreen();
                }
                UiCommand::Nothing
            },
            Action::NormalMode => {
                if self.focus == Focus::Terminal && self.terminal_mode == TerminalMode::Insert {
                    self.terminal_mode = TerminalMode::Normal;
                }
                UiCommand::Nothing
            },
            Action::FocusSidebar => {
                self.leave_terminal();
                self.focus = Focus::Sidebar;
                UiCommand::Nothing
            },
            Action::FocusGitStatus => {
                self.leave_terminal();
                self.focus = Focus::GitStatus;
                UiCommand::Run(AsyncAction::LoadGitStatus)
            },
            Action::FocusDiff => {
                self.leave_terminal();
                self.focus = Focus::DiffFiles;
                self.right_panel_view = RightPanelView::Diff;
                UiCommand::Run(AsyncAction::LoadDiffFiles)
            },
            Action::OpenTodo => {
                self.leave_terminal();
                self.save_focus();
                self.input_mode = InputMode::TodoPopup;
                UiCommand::Run(AsyncAction::LoadTodos)
            },
            Action::Quit => {
                self.should_quit = true;
                UiCommand::Nothing
            },
            _ => {
                self.status_message = Some(
                    "Prefix: w=sidebar g=git v=diff t=terminal n=new d=delete r=refresh q=quit".to_owned(),
                );
                UiCommand::Nothing
            },
        }
    }

    fn connect_if_active(&self) -> (r: UiCommand)
        ensures
            r == connect_if_active(self@),
    {
        if self.has_active_session {
            UiCommand::Run(AsyncAction::ConnectStream)
        } else {
            UiCommand::Nothing
        }
    }

    /// Handle a key while navigating the sidebar. `item` is what the sidebar
    /// cursor is on and `git_panel_enabled` whether the git panel is shown.
    pub fn handle_navigation_key(
        &mut self,
        key: &KeyEvent,
        item: SidebarItem,
        git_panel_enabled: bool,
    ) -> (r: UiCommand)
        requires
            old(self).wf(),
        ensures
            final(self).wf(),
            (final(self)@, r) == navigation_spec(old(self)@, *key, item, git_panel_enabled),
    {
        self.status_message = None;
        match key.code {
            KeyCode::Char(c) if '1' <= c && c <= '9' => {
                let idx = (c as u32 - '1' as u32) as usize;
                UiCommand::SwitchRepo(idx)
            },
            KeyCode::Tab => match self.focus {
                Focus::Sidebar => {
                    if let SidebarItem::Session(_, _) = item {
                        self.connect_if_active()
                    } else {
                        UiCommand::Nothing
                    }
                },
                Focus::Branches => {
                    self.focus = Focus::Sessions;
                    UiCommand::Nothing
                },
                Focus::Sessions => self.connect_if_active(),
                _ => UiCommand::Nothing,
            },
            KeyCode::Esc | KeyCode::BackTab => {
                match self.focus {
                    Focus::GitStatus => {
                        self.focus = Focus::Sidebar;
                    },
                    Focus::Sessions => {
                        self.focus = Focus::Branches;
                    },
                    _ => {},
                }
                UiCommand::Nothing
            },
            KeyCode::Up | KeyCode::Char('k') => UiCommand::SelectPrev,
            KeyCode::Down | KeyCode::Char('j') => UiCommand::SelectNext,
            KeyCode::Enter => match self.focus {
                Focus::Sidebar => match item {
                    SidebarItem::Worktree(_) => UiCommand::ToggleExpand,
                    SidebarItem::Session(_, _) => self.connect_if_active(),
                    SidebarItem::Empty => UiCommand::Nothing,
                },
                Focus::Branches => {
                    self.focus = Focus::Sessions;
                    UiCommand::Nothing
                },
                Focus::Sessions => self.connect_if_active(),
                _ => UiCommand::Nothing,
            },
            KeyCode::Char('o') if self.focus == Focus::Sidebar => UiCommand::ToggleExpand,
            KeyCode::Char('T') => UiCommand::ToggleTreeView,
            KeyCode::Char('g') if self.focus == Focus::Sidebar && git_panel_enabled => {
                self.focus = Focus::GitStatus;
                self.status_message = Some("Switched to Git Status panel".to_owned());
                UiCommand::Run(AsyncAction::LoadGitStatus)
            },
            KeyCode::Char('n') => UiCommand::Run(AsyncAction::CreateSession),
            KeyCode::Char('a') if self.focus == Focus::Branches || self.focus == Focus::Sidebar => {
                UiCommand::StartAddWorktree
            },
            KeyCode::Char('t') => {
                if self.right_panel_view == RightPanelView::Diff {
                    UiCommand::SwitchToTerminalView
                } else {
                    UiCommand::Run(AsyncAction::SwitchToDiffView)
                }
            },
            KeyCode::Char('d') | KeyCode::Char('x') => UiCommand::RequestDelete,
            KeyCode::Char('R') if self.focus == Focus::Sessions => UiCommand::StartRenameSession,
            KeyCode::Char('R') if self.focus == Focus::Sidebar => {
                if let SidebarItem::Session(_, _) = item {
                    UiCommand::StartRenameSession
                } else {
                    UiCommand::Nothing
                }
            },
            KeyCode::Char('r') => UiCommand::Run(AsyncAction::RefreshAll),
            KeyCode::Char('q') => {
                self.should_quit = true;
                UiCommand::Nothing
            },
            _ => UiCommand::Nothing,
        }
    }
}

} // verus!
