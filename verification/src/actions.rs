//! Bindable actions and their names.
//!
//! An action is a command that a key can be bound to; the binding tables name
//! actions by strings such as `move-down`, which this module resolves.

use vstd::prelude::*;
use crate::text::{is_white_space, str_eq, trim, trim_end_spec, trim_spec, trim_start_spec};

verus! {

/// The lower-case form of a string, as `str::to_lowercase` computes it
/// (Unicode lower-case mapping).
pub uninterp spec fn lowercase(s: Seq<char>) -> Seq<char>;

/// One character lower-cased the ASCII way: `A`-`Z` become `a`-`z`, every
/// other character stays.
pub open spec fn ascii_lower_char(c: char) -> char {
    if 'A' <= c && c <= 'Z' {
        ((c as u32) + 32) as char
    } else {
        c
    }
}

/// A text lower-cased the ASCII way.
pub open spec fn ascii_lower(s: Seq<char>) -> Seq<char> {
    s.map_values(|c: char| ascii_lower_char(c))
}

/// Whether every character of the text is ASCII.
pub open spec fn is_ascii_text(s: Seq<char>) -> bool {
    forall|i: int| 0 <= i < s.len() ==> ((#[trigger] s[i]) as u32) < 0x80
}

/// `str::to_lowercase`: the string with every character mapped to its
/// lower-case form. Beyond ASCII the mapping is only named; on ASCII text it
/// maps `A`-`Z` to `a`-`z` and keeps every other character, as the Unicode
/// lower-case mapping does there.
#[verifier::external_body]
fn to_lowercase(s: &str) -> (r: String)
    ensures
        r@ == lowercase(s@),
        is_ascii_text(s@) ==> r@ == ascii_lower(s@),
{
    s.to_lowercase()
}

/// All bindable actions.
///
/// These are high-level commands that keys are bound to; the TUI layer
/// carries them out.
#[derive(Debug, Clone, Copy, PartialEq, Eq, Hash, Structural)]
pub enum Action {

    // Navigation
    FocusSidebar,
    FocusSessions,
    FocusBranches,
    FocusTerminal,
    FocusGitStatus,
    FocusDiff,
    FocusNext,
    FocusPrev,

    // Movement (context-sensitive)
    MoveUp,
    MoveDown,
    GotoTop,
    GotoBottom,
    ToggleExpand,
    Select,

    // Terminal modes
    InsertMode,
    NormalMode,

    // Scrolling
    ScrollUp,
    ScrollDown,
    ScrollHalfPageUp,
    ScrollHalfPageDown,
    ScrollTop,
    ScrollBottom,

    // Session management
    CreateSession,
    RenameSession,
    DeleteCurrent,
    SwitchToShell,

    // Worktree
    AddWorktree,

    // Diff
    ToggleDiffView,
    PrevFile,
    NextFile,
    AddComment,
    EditComment,
    DeleteComment,
    NextComment,
    PrevComment,
    SubmitReviewClaude,

    // Git status
    StageFile,
    UnstageFile,
    StageAll,
    UnstageAll,
    ToggleOrOpen,

    // TODO
    AddTodo,
    AddChildTodo,
    EditTodoTitle,
    EditTodoDescription,
    DeleteTodo,
    ToggleTodoComplete,
    MoveTodoDown,
    MoveTodoUp,
    IndentTodo,
    DedentTodo,
    ToggleShowCompleted,

    // General
    RefreshAll,
    RefreshDiff,
    RefreshStatus,
    RefreshTodos,
    ToggleFullscreen,
    ExitFullscreen,
    ExitTerminal,
    BackToTerminal,
    ToggleTreeView,
    OpenTodo,
    ClosePopup,
    Quit,
    ShowHelp,

    // Dialog
    Submit,
    Cancel,
    Confirm,
    InsertNewline,

    // Command mode
    EnterCommandMode,

    // Special
    Noop,           // Do nothing
    SendToTerminal, // Forward to PTY
}

/// The action that a (trimmed, lower-case) name denotes, with its aliases.
pub open spec fn action_for_name_spec(name: Seq<char>) -> Option<Action> {
    if name == "focus-sidebar"@ || name == "focus-worktree"@ {
        Some(Action::FocusSidebar)
    } else if name == "focus-sessions"@ {
        Some(Action::FocusSessions)
    } else if name == "focus-branches"@ {
        Some(Action::FocusBranches)
    } else if name == "focus-terminal"@ {
        Some(Action::FocusTerminal)
    } else if name == "focus-git-status"@ || name == "focus-git"@ {
        Some(Action::FocusGitStatus)
    } else if name == "focus-diff"@ {
        Some(Action::FocusDiff)
    } else if name == "focus-next"@ {
        Some(Action::FocusNext)
    } else if name == "focus-prev"@ {
        Some(Action::FocusPrev)
    } else if name == "move-up"@ || name == "up"@ {
        Some(Action::MoveUp)
    } else if name == "move-down"@ || name == "down"@ {
        Some(Action::MoveDown)
    } else if name == "goto-top"@ || name == "top"@ {
        Some(Action::GotoTop)
    } else if name == "goto-bottom"@ || name == "bottom"@ {
        Some(Action::GotoBottom)
    } else if name == "toggle-expand"@ || name == "expand"@ {
        Some(Action::ToggleExpand)
    } else if name == "select"@ {
        Some(Action::Select)
    } else if name == "insert-mode"@ || name == "insert"@ {
        Some(Action::InsertMode)
    } else if name == "normal-mode"@ || name == "terminal-normal-mode"@ {
        Some(Action::NormalMode)
    } else if name == "scroll-up"@ {
        Some(Action::ScrollUp)
    } else if name == "scroll-down"@ {
        Some(Action::ScrollDown)
    } else if name == "scroll-half-page-up"@ {
        Some(Action::ScrollHalfPageUp)
    } else if name == "scroll-half-page-down"@ {
        Some(Action::ScrollHalfPageDown)
    } else if name == "scroll-top"@ {
        Some(Action::ScrollTop)
    } else if name == "scroll-bottom"@ {
        Some(Action::ScrollBottom)
    } else if name == "create-session"@ || name == "new-session"@ {
        Some(Action::CreateSession)
    } else if name == "rename-session"@ {
        Some(Action::RenameSession)
    } else if name == "delete-current"@ || name == "delete"@ {
        Some(Action::DeleteCurrent)
    } else if name == "switch-to-shell"@ {
        Some(Action::SwitchToShell)
    } else if name == "add-worktree"@ {
        Some(Action::AddWorktree)
    } else if name == "toggle-diff-view"@ || name == "diff"@ {
        Some(Action::ToggleDiffView)
    } else if name == "prev-file"@ {
        Some(Action::PrevFile)
    } else if name == "next-file"@ {
        Some(Action::NextFile)
    } else if name == "add-comment"@ {
        Some(Action::AddComment)
    } else if name == "edit-comment"@ {
        Some(Action::EditComment)
    } else if name == "delete-comment"@ {
        Some(Action::DeleteComment)
    } else if name == "next-comment"@ {
        Some(Action::NextComment)
    } else if name == "prev-comment"@ {
        Some(Action::PrevComment)
    } else if name == "submit-review-agent"@ {
        Some(Action::SubmitReviewClaude)
    } else if name == "stage-file"@ || name == "stage"@ {
        Some(Action::StageFile)
    } else if name == "unstage-file"@ || name == "unstage"@ {
        Some(Action::UnstageFile)
    } else if name == "stage-all"@ {
        Some(Action::StageAll)
    } else if name == "unstage-all"@ {
        Some(Action::UnstageAll)
    } else if name == "toggle-or-open"@ {
        Some(Action::ToggleOrOpen)
    } else if name == "add-todo"@ {
        Some(Action::AddTodo)
    } else if name == "add-child-todo"@ {
        Some(Action::AddChildTodo)
    } else if name == "edit-title"@ || name == "edit-todo-title"@ {
        Some(Action::EditTodoTitle)
    } else if name == "edit-description"@ || name == "edit-todo-description"@ {
        Some(Action::EditTodoDescription)
    } else if name == "delete-todo"@ {
        Some(Action::DeleteTodo)
    } else if name == "toggle-complete"@ || name == "toggle-todo-complete"@ {
        Some(Action::ToggleTodoComplete)
    } else if name == "move-todo-down"@ {
        Some(Action::MoveTodoDown)
    } else if name == "move-todo-up"@ {
        Some(Action::MoveTodoUp)
    } else if name == "indent-todo"@ {
        Some(Action::IndentTodo)
    } else if name == "dedent-todo"@ {
        Some(Action::DedentTodo)
    } else if name == "toggle-completed"@ || name == "toggle-show-completed"@ {
        Some(Action::ToggleShowCompleted)
    } else if name == "refresh-all"@ || name == "refresh"@ {
        Some(Action::RefreshAll)
    } else if name == "refresh-diff"@ {
        Some(Action::RefreshDiff)
    } else if name == "refresh-status"@ {
        Some(Action::RefreshStatus)
    } else if name == "refresh-todos"@ {
        Some(Action::RefreshTodos)
    } else if name == "toggle-fullscreen"@ || name == "fullscreen"@ {
        Some(Action::ToggleFullscreen)
    } else if name == "exit-fullscreen"@ {
        Some(Action::ExitFullscreen)
    } else if name == "exit-terminal"@ {
        Some(Action::ExitTerminal)
    } else if name == "back-to-terminal"@ {
        Some(Action::BackToTerminal)
    } else if name == "toggle-tree-view"@ {
        Some(Action::ToggleTreeView)
    } else if name == "open-todo"@ {
        Some(Action::OpenTodo)
    } else if name == "close-popup"@ {
        Some(Action::ClosePopup)
    } else if name == "quit"@ || name == "exit"@ {
        Some(Action::Quit)
    } else if name == "show-help"@ || name == "help"@ || name == "?"@ {
        Some(Action::ShowHelp)
    } else if name == "submit"@ {
        Some(Action::Submit)
    } else if name == "cancel"@ {
        Some(Action::Cancel)
    } else if name == "confirm"@ {
        Some(Action::Confirm)
    } else if name == "insert-newline"@ {
        Some(Action::InsertNewline)
    } else if name == "command-mode"@ || name == ":"@ {
        Some(Action::EnterCommandMode)
    } else if name == "noop"@ || name == "none"@ {
        Some(Action::Noop)
    } else if name == "send-to-terminal"@ {
        Some(Action::SendToTerminal)
    } else {
        None
    }
}

/// The name under which an action is shown to the user.
pub open spec fn display_name_spec(a: Action) -> Seq<char> {
    match a {
        Action::FocusSidebar => "Focus Sidebar"@,
        Action::FocusSessions => "Focus Sessions"@,
        Action::FocusBranches => "Focus Branches"@,
        Action::FocusTerminal => "Focus Terminal"@,
        Action::FocusGitStatus => "Focus Git Status"@,
        Action::FocusDiff => "Focus Diff"@,
        Action::FocusNext => "Focus Next"@,
        Action::FocusPrev => "Focus Previous"@,
        Action::MoveUp => "Move Up"@,
        Action::MoveDown => "Move Down"@,
        Action::GotoTop => "Goto Top"@,
        Action::GotoBottom => "Goto Bottom"@,
        Action::ToggleExpand => "Toggle Expand"@,
        Action::Select => "Select"@,
        Action::InsertMode => "Insert Mode"@,
        Action::NormalMode => "Normal Mode"@,
        Action::ScrollUp => "Scroll Up"@,
        Action::ScrollDown => "Scroll Down"@,
        Action::ScrollHalfPageUp => "Scroll Half Page Up"@,
        Action::ScrollHalfPageDown => "Scroll Half Page Down"@,
        Action::ScrollTop => "Scroll Top"@,
        Action::ScrollBottom => "Scroll Bottom"@,
        Action::CreateSession => "Create Session"@,
        Action::RenameSession => "Rename Session"@,
        Action::DeleteCurrent => "Delete Current"@,
        Action::SwitchToShell => "Switch to Shell"@,
        Action::AddWorktree => "Add Worktree"@,
        Action::ToggleDiffView => "Toggle Diff View"@,
        Action::PrevFile => "Previous File"@,
        Action::NextFile => "Next File"@,
        Action::AddComment => "Add Comment"@,
        Action::EditComment => "Edit Comment"@,
        Action::DeleteComment => "Delete Comment"@,
        Action::NextComment => "Next Comment"@,
        Action::PrevComment => "Previous Comment"@,
        Action::SubmitReviewClaude => "Submit Review to Agent"@,
        Action::StageFile => "Stage File"@,
        Action::UnstageFile => "Unstage File"@,
        Action::StageAll => "Stage All"@,
        Action::UnstageAll => "Unstage All"@,
        Action::ToggleOrOpen => "Toggle or Open"@,
        Action::AddTodo => "Add Todo"@,
        Action::AddChildTodo => "Add Child Todo"@,
        Action::EditTodoTitle => "Edit Todo Title"@,
        Action::EditTodoDescription => "Edit Todo Description"@,
        Action::DeleteTodo => "Delete Todo"@,
        Action::ToggleTodoComplete => "Toggle Todo Complete"@,
        Action::MoveTodoDown => "Move Todo Down"@,
        Action::MoveTodoUp => "Move Todo Up"@,
        Action::IndentTodo => "Indent Todo"@,
        Action::DedentTodo => "Dedent Todo"@,
        Action::ToggleShowCompleted => "Toggle Show Completed"@,
        Action::RefreshAll => "Refresh All"@,
        Action::RefreshDiff => "Refresh Diff"@,
        Action::RefreshStatus => "Refresh Status"@,
        Action::RefreshTodos => "Refresh Todos"@,
        Action::ToggleFullscreen => "Toggle Fullscreen"@,
        Action::ExitFullscreen => "Exit Fullscreen"@,
        Action::ExitTerminal => "Exit Terminal"@,
        Action::BackToTerminal => "Back to Terminal"@,
        Action::ToggleTreeView => "Toggle Tree View"@,
        Action::OpenTodo => "Open Todo"@,
        Action::ClosePopup => "Close Popup"@,
        Action::Quit => "Quit"@,
        Action::ShowHelp => "Show Help"@,
        Action::Submit => "Submit"@,
        Action::Cancel => "Cancel"@,
        Action::Confirm => "Confirm"@,
        Action::InsertNewline => "Insert Newline"@,
        Action::EnterCommandMode => "Enter Command Mode"@,
        Action::Noop => "No Operation"@,
        Action::SendToTerminal => "Send to Terminal"@,
    }
}

/// The action a name denotes, comparing it exactly (no trimming or case folding).
pub fn action_for_name(name: &str) -> (r: Option<Action>)
    ensures
        r == action_for_name_spec(name@),
{
    if str_eq(name, "focus-sidebar") || str_eq(name, "focus-worktree") {
        Some(Action::FocusSidebar)
    } else if str_eq(name, "focus-sessions") {
        Some(Action::FocusSessions)
    } else if str_eq(name, "focus-branches") {
        Some(Action::FocusBranches)
    } else if str_eq(name, "focus-terminal") {
        Some(Action::FocusTerminal)
    } else if str_eq(name, "focus-git-status") || str_eq(name, "focus-git") {
        Some(Action::FocusGitStatus)
    } else if str_eq(name, "focus-diff") {
        Some(Action::FocusDiff)
    } else if str_eq(name, "focus-next") {
        Some(Action::FocusNext)
    } else if str_eq(name, "focus-prev") {
        Some(Action::FocusPrev)
    } else if str_eq(name, "move-up") || str_eq(name, "up") {
        Some(Action::MoveUp)
    } else if str_eq(name, "move-down") || str_eq(name, "down") {
        Some(Action::MoveDown)
    } else if str_eq(name, "goto-top") || str_eq(name, "top") {
        Some(Action::GotoTop)
    } else if str_eq(name, "goto-bottom") || str_eq(name, "bottom") {
        Some(Action::GotoBottom)
    } else if str_eq(name, "toggle-expand") || str_eq(name, "expand") {
        Some(Action::ToggleExpand)
    } else if str_eq(name, "select") {
        Some(Action::Select)
    } else if str_eq(name, "insert-mode") || str_eq(name, "insert") {
        Some(Action::InsertMode)
    } else if str_eq(name, "normal-mode") || str_eq(name, "terminal-normal-mode") {
        Some(Action::NormalMode)
    } else if str_eq(name, "scroll-up") {
        Some(Action::ScrollUp)
    } else if str_eq(name, "scroll-down") {
        Some(Action::ScrollDown)
    } else if str_eq(name, "scroll-half-page-up") {
        Some(Action::ScrollHalfPageUp)
    } else if str_eq(name, "scroll-half-page-down") {
        Some(Action::ScrollHalfPageDown)
    } else if str_eq(name, "scroll-top") {
        Some(Action::ScrollTop)
    } else if str_eq(name, "scroll-bottom") {
        Some(Action::ScrollBottom)
    } else if str_eq(name, "create-session") || str_eq(name, "new-session") {
        Some(Action::CreateSession)
    } else if str_eq(name, "rename-session") {
        Some(Action::RenameSession)
    } else if str_eq(name, "delete-current") || str_eq(name, "delete") {
        Some(Action::DeleteCurrent)
    } else if str_eq(name, "switch-to-shell") {
        Some(Action::SwitchToShell)
    } else if str_eq(name, "add-worktree") {
        Some(Action::AddWorktree)
    } else if str_eq(name, "toggle-diff-view") || str_eq(name, "diff") {
        Some(Action::ToggleDiffView)
    } else if str_eq(name, "prev-file") {
        Some(Action::PrevFile)
    } else if str_eq(name, "next-file") {
        Some(Action::NextFile)
    } else if str_eq(name, "add-comment") {
        Some(Action::AddComment)
    } else if str_eq(name, "edit-comment") {
        Some(Action::EditComment)
    } else if str_eq(name, "delete-comment") {
        Some(Action::DeleteComment)
    } else if str_eq(name, "next-comment") {
        Some(Action::NextComment)
    } else if str_eq(name, "prev-comment") {
        Some(Action::PrevComment)
    } else if str_eq(name, "submit-review-agent") {
        Some(Action::SubmitReviewClaude)
    } else if str_eq(name, "stage-file") || str_eq(name, "stage") {
        Some(Action::StageFile)
    } else if str_eq(name, "unstage-file") || str_eq(name, "unstage") {
        Some(Action::UnstageFile)
    } else if str_eq(name, "stage-all") {
        Some(Action::StageAll)
    } else if str_eq(name, "unstage-all") {
        Some(Action::UnstageAll)
    } else if str_eq(name, "toggle-or-open") {
        Some(Action::ToggleOrOpen)
    } else if str_eq(name, "add-todo") {
        Some(Action::AddTodo)
    } else if str_eq(name, "add-child-todo") {
        Some(Action::AddChildTodo)
    } else if str_eq(name, "edit-title") || str_eq(name, "edit-todo-title") {
        Some(Action::EditTodoTitle)
    } else if str_eq(name, "edit-description") || str_eq(name, "edit-todo-description") {
        Some(Action::EditTodoDescription)
    } else if str_eq(name, "delete-todo") {
        Some(Action::DeleteTodo)
    } else if str_eq(name, "toggle-complete") || str_eq(name, "toggle-todo-complete") {
        Some(Action::ToggleTodoComplete)
    } else if str_eq(name, "move-todo-down") {
        Some(Action::MoveTodoDown)
    } else if str_eq(name, "move-todo-up") {
        Some(Action::MoveTodoUp)
    } else if str_eq(name, "indent-todo") {
        Some(Action::IndentTodo)
    } else if str_eq(name, "dedent-todo") {
        Some(Action::DedentTodo)
    } else if str_eq(name, "toggle-completed") || str_eq(name, "toggle-show-completed") {
        Some(Action::ToggleShowCompleted)
    } else if str_eq(name, "refresh-all") || str_eq(name, "refresh") {
        Some(Action::RefreshAll)
    } else if str_eq(name, "refresh-diff") {
        Some(Action::RefreshDiff)
    } else if str_eq(name, "refresh-status") {
        Some(Action::RefreshStatus)
    } else if str_eq(name, "refresh-todos") {
        Some(Action::RefreshTodos)
    } else if str_eq(name, "toggle-fullscreen") || str_eq(name, "fullscreen") {
        Some(Action::ToggleFullscreen)
    } else if str_eq(name, "exit-fullscreen") {
        Some(Action::ExitFullscreen)
    } else if str_eq(name, "exit-terminal") {
        Some(Action::ExitTerminal)
    } else if str_eq(name, "back-to-terminal") {
        Some(Action::BackToTerminal)
    } else if str_eq(name, "toggle-tree-view") {
        Some(Action::ToggleTreeView)
    } else if str_eq(name, "open-todo") {
        Some(Action::OpenTodo)
    } else if str_eq(name, "close-popup") {
        Some(Action::ClosePopup)
    } else if str_eq(name, "quit") || str_eq(name, "exit") {
        Some(Action::Quit)
    } else if str_eq(name, "show-help") || str_eq(name, "help") || str_eq(name, "?") {
        Some(Action::ShowHelp)
    } else if str_eq(name, "submit") {
        Some(Action::Submit)
    } else if str_eq(name, "cancel") {
        Some(Action::Cancel)
    } else if str_eq(name, "confirm") {
        Some(Action::Confirm)
    } else if str_eq(name, "insert-newline") {
        Some(Action::InsertNewline)
    } else if str_eq(name, "command-mode") || str_eq(name, ":") {
        Some(Action::EnterCommandMode)
    } else if str_eq(name, "noop") || str_eq(name, "none") {
        Some(Action::Noop)
    } else if str_eq(name, "send-to-terminal") {
        Some(Action::SendToTerminal)
    } else {
        None
    }
}

impl Action {
    /// Parse an action from a string: surrounding white space is ignored, case
    /// is folded, and aliases are accepted.
    pub fn from_str(s: &str) -> (r: Option<Self>)
        ensures
            r == action_for_name_spec(lowercase(trim_spec(s@))),
            is_ascii_text(trim_spec(s@)) ==> r == action_for_name_spec(ascii_lower(trim_spec(s@))),
    {
        let lower = to_lowercase(trim(s));
        action_for_name(lower.as_str())
    }

    /// The display name of this action.
    pub fn display_name(&self) -> (r: &'static str)
        ensures
            r@ == display_name_spec(*self),
    {
        match self {
            Action::FocusSidebar => "Focus Sidebar",
            Action::FocusSessions => "Focus Sessions",
            Action::FocusBranches => "Focus Branches",
            Action::FocusTerminal => "Focus Terminal",
            Action::FocusGitStatus => "Focus Git Status",
            Action::FocusDiff => "Focus Diff",
            Action::FocusNext => "Focus Next",
            Action::FocusPrev => "Focus Previous",
            Action::MoveUp => "Move Up",
            Action::MoveDown => "Move Down",
            Action::GotoTop => "Goto Top",
            Action::GotoBottom => "Goto Bottom",
            Action::ToggleExpand => "Toggle Expand",
            Action::Select => "Select",
            Action::InsertMode => "Insert Mode",
            Action::NormalMode => "Normal Mode",
            Action::ScrollUp => "Scroll Up",
            Action::ScrollDown => "Scroll Down",
            Action::ScrollHalfPageUp => "Scroll Half Page Up",
            Action::ScrollHalfPageDown => "Scroll Half Page Down",
            Action::ScrollTop => "Scroll Top",
            Action::ScrollBottom => "Scroll Bottom",
            Action::CreateSession => "Create Session",
            Action::RenameSession => "Rename Session",
            Action::DeleteCurrent => "Delete Current",
            Action::SwitchToShell => "Switch to Shell",
            Action::AddWorktree => "Add Worktree",
            Action::ToggleDiffView => "Toggle Diff View",
            Action::PrevFile => "Previous File",
            Action::NextFile => "Next File",
            Action::AddComment => "Add Comment",
            Action::EditComment => "Edit Comment",
            Action::DeleteComment => "Delete Comment",
            Action::NextComment => "Next Comment",
            Action::PrevComment => "Previous Comment",
            Action::SubmitReviewClaude => "Submit Review to Agent",
            Action::StageFile => "Stage File",
            Action::UnstageFile => "Unstage File",
            Action::StageAll => "Stage All",
            Action::UnstageAll => "Unstage All",
            Action::ToggleOrOpen => "Toggle or Open",
            Action::AddTodo => "Add Todo",
            Action::AddChildTodo => "Add Child Todo",
            Action::EditTodoTitle => "Edit Todo Title",
            Action::EditTodoDescription => "Edit Todo Description",
            Action::DeleteTodo => "Delete Todo",
            Action::ToggleTodoComplete => "Toggle Todo Complete",
            Action::MoveTodoDown => "Move Todo Down",
            Action::MoveTodoUp => "Move Todo Up",
            Action::IndentTodo => "Indent Todo",
            Action::DedentTodo => "Dedent Todo",
            Action::ToggleShowCompleted => "Toggle Show Completed",
            Action::RefreshAll => "Refresh All",
            Action::RefreshDiff => "Refresh Diff",
            Action::RefreshStatus => "Refresh Status",
            Action::RefreshTodos => "Refresh Todos",
            Action::ToggleFullscreen => "Toggle Fullscreen",
            Action::ExitFullscreen => "Exit Fullscreen",
            Action::ExitTerminal => "Exit Terminal",
            Action::BackToTerminal => "Back to Terminal",
            Action::ToggleTreeView => "Toggle Tree View",
            Action::OpenTodo => "Open Todo",
            Action::ClosePopup => "Close Popup",
            Action::Quit => "Quit",
            Action::ShowHelp => "Show Help",
            Action::Submit => "Submit",
            Action::Cancel => "Cancel",
            Action::Confirm => "Confirm",
            Action::InsertNewline => "Insert Newline",
            Action::EnterCommandMode => "Enter Command Mode",
            Action::Noop => "No Operation",
            Action::SendToTerminal => "Send to Terminal",
        }
    }
}

/// Parses an action name, or says which name is unknown.
fn parse_action(s: &str) -> (res: Result<Action, String>)
    ensures
        match res {
            Ok(a) => action_for_name_spec(lowercase(trim_spec(s@))) == Some(a),
            Err(msg) => action_for_name_spec(lowercase(trim_spec(s@))) is None && msg@
                == "Unknown action: "@ + s@,
        },
{
    match Action::from_str(s) {
        Some(a) => Ok(a),
        None => {
            let mut msg = "Unknown action: ".to_owned();
            msg.append(s);
            Err(msg)
        },
    }
}

impl std::str::FromStr for Action {
    type Err = String;

    fn from_str(s: &str) -> Result<Self, Self::Err> {
        parse_action(s)
    }
}

/// The name under which the binding tables name each action.
pub open spec fn action_name(a: Action) -> Seq<char> {
    match a {
        Action::FocusSidebar => "focus-sidebar"@,
        Action::FocusSessions => "focus-sessions"@,
        Action::FocusBranches => "focus-branches"@,
        Action::FocusTerminal => "focus-terminal"@,
        Action::FocusGitStatus => "focus-git-status"@,
        Action::FocusDiff => "focus-diff"@,
        Action::FocusNext => "focus-next"@,
        Action::FocusPrev => "focus-prev"@,
        Action::MoveUp => "move-up"@,
        Action::MoveDown => "move-down"@,
        Action::GotoTop => "goto-top"@,
        Action::GotoBottom => "goto-bottom"@,
        Action::ToggleExpand => "toggle-expand"@,
        Action::Select => "select"@,
        Action::InsertMode => "insert-mode"@,
        Action::NormalMode => "normal-mode"@,
        Action::ScrollUp => "scroll-up"@,
        Action::ScrollDown => "scroll-down"@,
        Action::ScrollHalfPageUp => "scroll-half-page-up"@,
        Action::ScrollHalfPageDown => "scroll-half-page-down"@,
        Action::ScrollTop => "scroll-top"@,
        Action::ScrollBottom => "scroll-bottom"@,
        Action::CreateSession => "create-session"@,
        Action::RenameSession => "rename-session"@,
        Action::DeleteCurrent => "delete-current"@,
        Action::SwitchToShell => "switch-to-shell"@,
        Action::AddWorktree => "add-worktree"@,
        Action::ToggleDiffView => "toggle-diff-view"@,
        Action::PrevFile => "prev-file"@,
        Action::NextFile => "next-file"@,
        Action::AddComment => "add-comment"@,
        Action::EditComment => "edit-comment"@,
        Action::DeleteComment => "delete-comment"@,
        Action::NextComment => "next-comment"@,
        Action::PrevComment => "prev-comment"@,
        Action::SubmitReviewClaude => "submit-review-agent"@,
        Action::StageFile => "stage-file"@,
        Action::UnstageFile => "unstage-file"@,
        Action::StageAll => "stage-all"@,
        Action::UnstageAll => "unstage-all"@,
        Action::ToggleOrOpen => "toggle-or-open"@,
        Action::AddTodo => "add-todo"@,
        Action::AddChildTodo => "add-child-todo"@,
        Action::EditTodoTitle => "edit-title"@,
        Action::EditTodoDescription => "edit-description"@,
        Action::DeleteTodo => "delete-todo"@,
        Action::ToggleTodoComplete => "toggle-complete"@,
        Action::MoveTodoDown => "move-todo-down"@,
        Action::MoveTodoUp => "move-todo-up"@,
        Action::IndentTodo => "indent-todo"@,
        Action::DedentTodo => "dedent-todo"@,
        Action::ToggleShowCompleted => "toggle-completed"@,
        Action::RefreshAll => "refresh-all"@,
        Action::RefreshDiff => "refresh-diff"@,
        Action::RefreshStatus => "refresh-status"@,
        Action::RefreshTodos => "refresh-todos"@,
        Action::ToggleFullscreen => "toggle-fullscreen"@,
        Action::ExitFullscreen => "exit-fullscreen"@,
        Action::ExitTerminal => "exit-terminal"@,
        Action::BackToTerminal => "back-to-terminal"@,
        Action::ToggleTreeView => "toggle-tree-view"@,
        Action::OpenTodo => "open-todo"@,
        Action::ClosePopup => "close-popup"@,
        Action::Quit => "quit"@,
        Action::ShowHelp => "show-help"@,
        Action::Submit => "submit"@,
        Action::Cancel => "cancel"@,
        Action::Confirm => "confirm"@,
        Action::InsertNewline => "insert-newline"@,
        Action::EnterCommandMode => "command-mode"@,
        Action::Noop => "noop"@,
        Action::SendToTerminal => "send-to-terminal"@,
    }
}

/// The lengths of the action names and aliases, and their letters where two
/// of the same length first differ: enough to tell any two apart.
proof fn lemma_action_name_letters()
    ensures
        "focus-sidebar"@.len() == 13,
        "focus-worktree"@.len() == 14,
        "focus-sessions"@.len() == 14,
        "focus-branches"@.len() == 14,
        "focus-terminal"@.len() == 14,
        "focus-git-status"@.len() == 16,
        "focus-git"@.len() == 9,
        "focus-diff"@.len() == 10,
        "focus-next"@.len() == 10,
        "focus-prev"@.len() == 10,
        "move-up"@.len() == 7,
        "up"@.len() == 2,
        "move-down"@.len() == 9,
        "down"@.len() == 4,
        "goto-top"@.len() == 8,
        "top"@.len() == 3,
        "goto-bottom"@.len() == 11,
        "bottom"@.len() == 6,
        "toggle-expand"@.len() == 13,
        "expand"@.len() == 6,
        "select"@.len() == 6,
        "insert-mode"@.len() == 11,
        "insert"@.len() == 6,
        "normal-mode"@.len() == 11,
        "terminal-normal-mode"@.len() == 20,
        "scroll-up"@.len() == 9,
        "scroll-down"@.len() == 11,
        "scroll-half-page-up"@.len() == 19,
        "scroll-half-page-down"@.len() == 21,
        "scroll-top"@.len() == 10,
        "scroll-bottom"@.len() == 13,
        "create-session"@.len() == 14,
        "new-session"@.len() == 11,
        "rename-session"@.len() == 14,
        "delete-current"@.len() == 14,
        "delete"@.len() == 6,
        "switch-to-shell"@.len() == 15,
        "add-worktree"@.len() == 12,
        "toggle-diff-view"@.len() == 16,
        "diff"@.len() == 4,
        "prev-file"@.len() == 9,
        "next-file"@.len() == 9,
        "add-comment"@.len() == 11,
        "edit-comment"@.len() == 12,
        "delete-comment"@.len() == 14,
        "next-comment"@.len() == 12,
        "prev-comment"@.len() == 12,
        "submit-review-agent"@.len() == 19,
        "stage-file"@.len() == 10,
        "stage"@.len() == 5,
        "unstage-file"@.len() == 12,
        "unstage"@.len() == 7,
        "stage-all"@.len() == 9,
        "unstage-all"@.len() == 11,
        "toggle-or-open"@.len() == 14,
        "add-todo"@.len() == 8,
        "add-child-todo"@.len() == 14,
        "edit-title"@.len() == 10,
        "edit-todo-title"@.len() == 15,
        "edit-description"@.len() == 16,
        "edit-todo-description"@.len() == 21,
        "delete-todo"@.len() == 11,
        "toggle-complete"@.len() == 15,
        "toggle-todo-complete"@.len() == 20,
        "move-todo-down"@.len() == 14,
        "move-todo-up"@.len() == 12,
        "indent-todo"@.len() == 11,
        "dedent-todo"@.len() == 11,
        "toggle-completed"@.len() == 16,
        "toggle-show-completed"@.len() == 21,
        "refresh-all"@.len() == 11,
        "refresh"@.len() == 7,
        "refresh-diff"@.len() == 12,
        "refresh-status"@.len() == 14,
        "refresh-todos"@.len() == 13,
        "toggle-fullscreen"@.len() == 17,
        "fullscreen"@.len() == 10,
        "exit-fullscreen"@.len() == 15,
        "exit-terminal"@.len() == 13,
        "back-to-terminal"@.len() == 16,
        "toggle-tree-view"@.len() == 16,
        "open-todo"@.len() == 9,
        "close-popup"@.len() == 11,
        "quit"@.len() == 4,
        "exit"@.len() == 4,
        "show-help"@.len() == 9,
        "help"@.len() == 4,
        "?"@.len() == 1,
        "submit"@.len() == 6,
        "cancel"@.len() == 6,
        "confirm"@.len() == 7,
        "insert-newline"@.len() == 14,
        "command-mode"@.len() == 12,
        ":"@.len() == 1,
        "noop"@.len() == 4,
        "none"@.len() == 4,
        "send-to-terminal"@.len() == 16,
        ":"@[0] == ':',
        "?"@[0] == '?',
        "add-child-todo"@[0] == 'a',
        "add-comment"@[0] == 'a',
        "add-todo"@[0] == 'a',
        "add-worktree"@[0] == 'a',
        "back-to-terminal"@[0] == 'b',
        "bottom"@[0] == 'b',
        "cancel"@[0] == 'c',
        "close-popup"@[0] == 'c',
        "command-mode"@[0] == 'c',
        "confirm"@[0] == 'c',
        "create-session"@[0] == 'c',
        "dedent-todo"@[0] == 'd',
        "dedent-todo"@[2] == 'd',
        "delete"@[0] == 'd',
        "delete-comment"@[0] == 'd',
        "delete-comment"@[8] == 'o',
        "delete-current"@[0] == 'd',
        "delete-current"@[8] == 'u',
        "delete-todo"@[0] == 'd',
        "delete-todo"@[2] == 'l',
        "diff"@[0] == 'd',
        "diff"@[1] == 'i',
        "down"@[0] == 'd',
        "down"@[1] == 'o',
        "edit-comment"@[0] == 'e',
        "edit-description"@[0] == 'e',
        "edit-title"@[0] == 'e',
        "edit-todo-description"@[0] == 'e',
        "edit-todo-title"@[0] == 'e',
        "edit-todo-title"@[1] == 'd',
        "exit"@[0] == 'e',
        "exit-fullscreen"@[0] == 'e',
        "exit-fullscreen"@[1] == 'x',
        "exit-terminal"@[0] == 'e',
        "expand"@[0] == 'e',
        "focus-branches"@[0] == 'f',
        "focus-branches"@[6] == 'b',
        "focus-diff"@[0] == 'f',
        "focus-diff"@[1] == 'o',
        "focus-diff"@[6] == 'd',
        "focus-git"@[0] == 'f',
        "focus-git-status"@[0] == 'f',
        "focus-next"@[0] == 'f',
        "focus-next"@[1] == 'o',
        "focus-next"@[6] == 'n',
        "focus-prev"@[0] == 'f',
        "focus-prev"@[1] == 'o',
        "focus-prev"@[6] == 'p',
        "focus-sessions"@[0] == 'f',
        "focus-sessions"@[6] == 's',
        "focus-sidebar"@[0] == 'f',
        "focus-terminal"@[0] == 'f',
        "focus-terminal"@[6] == 't',
        "focus-worktree"@[0] == 'f',
        "focus-worktree"@[6] == 'w',
        "fullscreen"@[0] == 'f',
        "fullscreen"@[1] == 'u',
        "goto-bottom"@[0] == 'g',
        "goto-top"@[0] == 'g',
        "help"@[0] == 'h',
        "indent-todo"@[0] == 'i',
        "indent-todo"@[2] == 'd',
        "insert"@[0] == 'i',
        "insert-mode"@[0] == 'i',
        "insert-mode"@[2] == 's',
        "insert-newline"@[0] == 'i',
        "move-down"@[0] == 'm',
        "move-todo-down"@[0] == 'm',
        "move-todo-up"@[0] == 'm',
        "move-up"@[0] == 'm',
        "new-session"@[0] == 'n',
        "new-session"@[1] == 'e',
        "next-comment"@[0] == 'n',
        "next-file"@[0] == 'n',
        "none"@[0] == 'n',
        "none"@[2] == 'n',
        "noop"@[0] == 'n',
        "noop"@[2] == 'o',
        "normal-mode"@[0] == 'n',
        "normal-mode"@[1] == 'o',
        "open-todo"@[0] == 'o',
        "prev-comment"@[0] == 'p',
        "prev-file"@[0] == 'p',
        "quit"@[0] == 'q',
        "refresh"@[0] == 'r',
        "refresh-all"@[0] == 'r',
        "refresh-diff"@[0] == 'r',
        "refresh-status"@[0] == 'r',
        "refresh-status"@[2] == 'f',
        "refresh-todos"@[0] == 'r',
        "rename-session"@[0] == 'r',
        "rename-session"@[2] == 'n',
        "scroll-bottom"@[0] == 's',
        "scroll-down"@[0] == 's',
        "scroll-half-page-down"@[0] == 's',
        "scroll-half-page-up"@[1] == 'c',
        "scroll-top"@[0] == 's',
        "scroll-top"@[1] == 'c',
        "scroll-up"@[0] == 's',
        "scroll-up"@[1] == 'c',
        "select"@[0] == 's',
        "select"@[1] == 'e',
        "send-to-terminal"@[0] == 's',
        "show-help"@[0] == 's',
        "show-help"@[1] == 'h',
        "stage-all"@[0] == 's',
        "stage-all"@[1] == 't',
        "stage-file"@[0] == 's',
        "stage-file"@[1] == 't',
        "submit"@[0] == 's',
        "submit"@[1] == 'u',
        "submit-review-agent"@[1] == 'u',
        "switch-to-shell"@[0] == 's',
        "terminal-normal-mode"@[1] == 'e',
        "toggle-complete"@[0] == 't',
        "toggle-completed"@[0] == 't',
        "toggle-completed"@[7] == 'c',
        "toggle-diff-view"@[0] == 't',
        "toggle-diff-view"@[7] == 'd',
        "toggle-expand"@[0] == 't',
        "toggle-or-open"@[0] == 't',
        "toggle-show-completed"@[0] == 't',
        "toggle-todo-complete"@[1] == 'o',
        "toggle-tree-view"@[0] == 't',
        "toggle-tree-view"@[7] == 't',
        "unstage"@[0] == 'u',
        "unstage-all"@[0] == 'u',
        "unstage-file"@[0] == 'u',
{
    reveal_strlit("focus-sidebar");
    reveal_strlit("focus-worktree");
    reveal_strlit("focus-sessions");
    reveal_strlit("focus-branches");
    reveal_strlit("focus-terminal");
    reveal_strlit("focus-git-status");
    reveal_strlit("focus-git");
    reveal_strlit("focus-diff");
    reveal_strlit("focus-next");
    reveal_strlit("focus-prev");
    reveal_strlit("move-up");
    reveal_strlit("up");
    reveal_strlit("move-down");
    reveal_strlit("down");
    reveal_strlit("goto-top");
    reveal_strlit("top");
    reveal_strlit("goto-bottom");
    reveal_strlit("bottom");
    reveal_strlit("toggle-expand");
    reveal_strlit("expand");
    reveal_strlit("select");
    reveal_strlit("insert-mode");
    reveal_strlit("insert");
    reveal_strlit("normal-mode");
    reveal_strlit("terminal-normal-mode");
    reveal_strlit("scroll-up");
    reveal_strlit("scroll-down");
    reveal_strlit("scroll-half-page-up");
    reveal_strlit("scroll-half-page-down");
    reveal_strlit("scroll-top");
    reveal_strlit("scroll-bottom");
    reveal_strlit("create-session");
    reveal_strlit("new-session");
    reveal_strlit("rename-session");
    reveal_strlit("delete-current");
    reveal_strlit("delete");
    reveal_strlit("switch-to-shell");
    reveal_strlit("add-worktree");
    reveal_strlit("toggle-diff-view");
    reveal_strlit("diff");
    reveal_strlit("prev-file");
    reveal_strlit("next-file");
    reveal_strlit("add-comment");
    reveal_strlit("edit-comment");
    reveal_strlit("delete-comment");
    reveal_strlit("next-comment");
    reveal_strlit("prev-comment");
    reveal_strlit("submit-review-agent");
    reveal_strlit("stage-file");
    reveal_strlit("stage");
    reveal_strlit("unstage-file");
    reveal_strlit("unstage");
    reveal_strlit("stage-all");
    reveal_strlit("unstage-all");
    reveal_strlit("toggle-or-open");
    reveal_strlit("add-todo");
    reveal_strlit("add-child-todo");
    reveal_strlit("edit-title");
    reveal_strlit("edit-todo-title");
    reveal_strlit("edit-description");
    reveal_strlit("edit-todo-description");
    reveal_strlit("delete-todo");
    reveal_strlit("toggle-complete");
    reveal_strlit("toggle-todo-complete");
    reveal_strlit("move-todo-down");
    reveal_strlit("move-todo-up");
    reveal_strlit("indent-todo");
    reveal_strlit("dedent-todo");
    reveal_strlit("toggle-completed");
    reveal_strlit("toggle-show-completed");
    reveal_strlit("refresh-all");
    reveal_strlit("refresh");
    reveal_strlit("refresh-diff");
    reveal_strlit("refresh-status");
    reveal_strlit("refresh-todos");
    reveal_strlit("toggle-fullscreen");
    reveal_strlit("fullscreen");
    reveal_strlit("exit-fullscreen");
    reveal_strlit("exit-terminal");
    reveal_strlit("back-to-terminal");
    reveal_strlit("toggle-tree-view");
    reveal_strlit("open-todo");
    reveal_strlit("close-popup");
    reveal_strlit("quit");
    reveal_strlit("exit");
    reveal_strlit("show-help");
    reveal_strlit("help");
    reveal_strlit("?");
    reveal_strlit("submit");
    reveal_strlit("cancel");
    reveal_strlit("confirm");
    reveal_strlit("insert-newline");
    reveal_strlit("command-mode");
    reveal_strlit(":");
    reveal_strlit("noop");
    reveal_strlit("none");
    reveal_strlit("send-to-terminal");
}

/// Each action's name resolves to that action: binding a key to an action's
/// name binds it to that action.
#[verifier::rlimit(100)]
pub proof fn law_action_names_resolve(a: Action)
    ensures
        action_for_name_spec(action_name(a)) == Some(a),
{    lemma_action_name_letters();
    match a {
        Action::FocusSidebar => assert(action_for_name_spec("focus-sidebar"@) == Some(Action::FocusSidebar)),
        Action::FocusSessions => assert(action_for_name_spec("focus-sessions"@) == Some(Action::FocusSessions)),
        Action::FocusBranches => assert(action_for_name_spec("focus-branches"@) == Some(Action::FocusBranches)),
        Action::FocusTerminal => assert(action_for_name_spec("focus-terminal"@) == Some(Action::FocusTerminal)),
        Action::FocusGitStatus => assert(action_for_name_spec("focus-git-status"@) == Some(Action::FocusGitStatus)),
        Action::FocusDiff => assert(action_for_name_spec("focus-diff"@) == Some(Action::FocusDiff)),
        Action::FocusNext => assert(action_for_name_spec("focus-next"@) == Some(Action::FocusNext)),
        Action::FocusPrev => assert(action_for_name_spec("focus-prev"@) == Some(Action::FocusPrev)),
        Action::MoveUp => assert(action_for_name_spec("move-up"@) == Some(Action::MoveUp)),
        Action::MoveDown => assert(action_for_name_spec("move-down"@) == Some(Action::MoveDown)),
        Action::GotoTop => assert(action_for_name_spec("goto-top"@) == Some(Action::GotoTop)),
        Action::GotoBottom => assert(action_for_name_spec("goto-bottom"@) == Some(Action::GotoBottom)),
        Action::ToggleExpand => assert(action_for_name_spec("toggle-expand"@) == Some(Action::ToggleExpand)),
        Action::Select => assert(action_for_name_spec("select"@) == Some(Action::Select)),
        Action::InsertMode => assert(action_for_name_spec("insert-mode"@) == Some(Action::InsertMode)),
        Action::NormalMode => assert(action_for_name_spec("normal-mode"@) == Some(Action::NormalMode)),
        Action::ScrollUp => assert(action_for_name_spec("scroll-up"@) == Some(Action::ScrollUp)),
        Action::ScrollDown => assert(action_for_name_spec("scroll-down"@) == Some(Action::ScrollDown)),
        Action::ScrollHalfPageUp => assert(action_for_name_spec("scroll-half-page-up"@) == Some(Action::ScrollHalfPageUp)),
        Action::ScrollHalfPageDown => assert(action_for_name_spec("scroll-half-page-down"@) == Some(Action::ScrollHalfPageDown)),
        Action::ScrollTop => assert(action_for_name_spec("scroll-top"@) == Some(Action::ScrollTop)),
        Action::ScrollBottom => assert(action_for_name_spec("scroll-bottom"@) == Some(Action::ScrollBottom)),
        Action::CreateSession => assert(action_for_name_spec("create-session"@) == Some(Action::CreateSession)),
        Action::RenameSession => assert(action_for_name_spec("rename-session"@) == Some(Action::RenameSession)),
        Action::DeleteCurrent => assert(action_for_name_spec("delete-current"@) == Some(Action::DeleteCurrent)),
        Action::SwitchToShell => assert(action_for_name_spec("switch-to-shell"@) == Some(Action::SwitchToShell)),
        Action::AddWorktree => assert(action_for_name_spec("add-worktree"@) == Some(Action::AddWorktree)),
        Action::ToggleDiffView => assert(action_for_name_spec("toggle-diff-view"@) == Some(Action::ToggleDiffView)),
        Action::PrevFile => assert(action_for_name_spec("prev-file"@) == Some(Action::PrevFile)),
        Action::NextFile => assert(action_for_name_spec("next-file"@) == Some(Action::NextFile)),
        Action::AddComment => assert(action_for_name_spec("add-comment"@) == Some(Action::AddComment)),
        Action::EditComment => assert(action_for_name_spec("edit-comment"@) == Some(Action::EditComment)),
        Action::DeleteComment => assert(action_for_name_spec("delete-comment"@) == Some(Action::DeleteComment)),
        Action::NextComment => assert(action_for_name_spec("next-comment"@) == Some(Action::NextComment)),
        Action::PrevComment => assert(action_for_name_spec("prev-comment"@) == Some(Action::PrevComment)),
        Action::SubmitReviewClaude => assert(action_for_name_spec("submit-review-agent"@) == Some(Action::SubmitReviewClaude)),
        Action::StageFile => assert(action_for_name_spec("stage-file"@) == Some(Action::StageFile)),
        Action::UnstageFile => assert(action_for_name_spec("unstage-file"@) == Some(Action::UnstageFile)),
        Action::StageAll => assert(action_for_name_spec("stage-all"@) == Some(Action::StageAll)),
        Action::UnstageAll => assert(action_for_name_spec("unstage-all"@) == Some(Action::UnstageAll)),
        Action::ToggleOrOpen => assert(action_for_name_spec("toggle-or-open"@) == Some(Action::ToggleOrOpen)),
        Action::AddTodo => assert(action_for_name_spec("add-todo"@) == Some(Action::AddTodo)),
        Action::AddChildTodo => assert(action_for_name_spec("add-child-todo"@) == Some(Action::AddChildTodo)),
        Action::EditTodoTitle => assert(action_for_name_spec("edit-title"@) == Some(Action::EditTodoTitle)),
        Action::EditTodoDescription => assert(action_for_name_spec("edit-description"@) == Some(Action::EditTodoDescription)),
        Action::DeleteTodo => assert(action_for_name_spec("delete-todo"@) == Some(Action::DeleteTodo)),
        Action::ToggleTodoComplete => assert(action_for_name_spec("toggle-complete"@) == Some(Action::ToggleTodoComplete)),
        Action::MoveTodoDown => assert(action_for_name_spec("move-todo-down"@) == Some(Action::MoveTodoDown)),
        Action::MoveTodoUp => assert(action_for_name_spec("move-todo-up"@) == Some(Action::MoveTodoUp)),
        Action::IndentTodo => assert(action_for_name_spec("indent-todo"@) == Some(Action::IndentTodo)),
        Action::DedentTodo => assert(action_for_name_spec("dedent-todo"@) == Some(Action::DedentTodo)),
        Action::ToggleShowCompleted => assert(action_for_name_spec("toggle-completed"@) == Some(Action::ToggleShowCompleted)),
        Action::RefreshAll => assert(action_for_name_spec("refresh-all"@) == Some(Action::RefreshAll)),
        Action::RefreshDiff => assert(action_for_name_spec("refresh-diff"@) == Some(Action::RefreshDiff)),
        Action::RefreshStatus => assert(action_for_name_spec("refresh-status"@) == Some(Action::RefreshStatus)),
        Action::RefreshTodos => assert(action_for_name_spec("refresh-todos"@) == Some(Action::RefreshTodos)),
        Action::ToggleFullscreen => assert(action_for_name_spec("toggle-fullscreen"@) == Some(Action::ToggleFullscreen)),
        Action::ExitFullscreen => assert(action_for_name_spec("exit-fullscreen"@) == Some(Action::ExitFullscreen)),
        Action::ExitTerminal => assert(action_for_name_spec("exit-terminal"@) == Some(Action::ExitTerminal)),
        Action::BackToTerminal => assert(action_for_name_spec("back-to-terminal"@) == Some(Action::BackToTerminal)),
        Action::ToggleTreeView => assert(action_for_name_spec("toggle-tree-view"@) == Some(Action::ToggleTreeView)),
        Action::OpenTodo => assert(action_for_name_spec("open-todo"@) == Some(Action::OpenTodo)),
        Action::ClosePopup => assert(action_for_name_spec("close-popup"@) == Some(Action::ClosePopup)),
        Action::Quit => assert(action_for_name_spec("quit"@) == Some(Action::Quit)),
        Action::ShowHelp => assert(action_for_name_spec("show-help"@) == Some(Action::ShowHelp)),
        Action::Submit => assert(action_for_name_spec("submit"@) == Some(Action::Submit)),
        Action::Cancel => assert(action_for_name_spec("cancel"@) == Some(Action::Cancel)),
        Action::Confirm => assert(action_for_name_spec("confirm"@) == Some(Action::Confirm)),
        Action::InsertNewline => assert(action_for_name_spec("insert-newline"@) == Some(Action::InsertNewline)),
        Action::EnterCommandMode => assert(action_for_name_spec("command-mode"@) == Some(Action::EnterCommandMode)),
        Action::Noop => assert(action_for_name_spec("noop"@) == Some(Action::Noop)),
        Action::SendToTerminal => assert(action_for_name_spec("send-to-terminal"@) == Some(Action::SendToTerminal)),
    }
}

/// No two actions share a name.
pub proof fn law_action_names_distinct(a: Action, b: Action)
    ensures
        action_name(a) == action_name(b) ==> a == b,
{
    law_action_names_resolve(a);
    law_action_names_resolve(b);
}

/// A name already in the form that `Action::from_str` reads: ASCII, with no
/// upper case and no white space.
pub open spec fn plain_name(s: Seq<char>) -> bool
    decreases s.len(),
{
    s.len() == 0 || ((s[0] as u32) < 0x80 && !('A' <= s[0] && s[0] <= 'Z') && !is_white_space(s[0])
        && plain_name(s.drop_first()))
}

proof fn lemma_plain_name(s: Seq<char>)
    requires
        plain_name(s),
    ensures
        forall|i: int|
            0 <= i < s.len() ==> ((#[trigger] s[i]) as u32) < 0x80 && !('A' <= s[i] && s[i] <= 'Z')
                && !is_white_space(s[i]),
    decreases s.len(),
{
    if s.len() > 0 {
        lemma_plain_name(s.drop_first());
        assert forall|i: int| 0 < i < s.len() implies ((#[trigger] s[i]) as u32) < 0x80 && !('A' <= s[i]
            && s[i] <= 'Z') && !is_white_space(s[i]) by {
            assert(s[i] == s.drop_first()[i - 1]);
        }
    }
}

/// Trimming and lower-casing leave a plain name as it is.
pub(crate) proof fn lemma_plain_reads_back(v: Seq<char>)
    requires
        plain_name(v),
        v.len() > 0,
    ensures
        trim_spec(v) == v,
        is_ascii_text(v),
        ascii_lower(v) == v,
{
    lemma_plain_name(v);
    assert(trim_start_spec(v) == v);
    assert(trim_end_spec(v) == v) by {
        assert(v.last() == v[v.len() - 1]);
    }
    assert(ascii_lower(v) =~= v);
}

/// `Action::from_str` reads each action's name as that action: the name is
/// ASCII once trimmed, and trimmed and lower-cased it resolves to the action.
#[verifier::rlimit(100)]
pub proof fn law_action_names_parse(a: Action)
    ensures
        is_ascii_text(trim_spec(action_name(a))),
        action_for_name_spec(ascii_lower(trim_spec(action_name(a)))) == Some(a),
{
    match a {
        Action::FocusSidebar => {
            assert(plain_name("focus-sidebar"@) && "focus-sidebar"@.len() > 0) by {
                reveal_strlit("focus-sidebar");
                reveal_with_fuel(plain_name, 25);
            }
            lemma_plain_reads_back("focus-sidebar"@);
        },
        Action::FocusSessions => {
            assert(plain_name("focus-sessions"@) && "focus-sessions"@.len() > 0) by {
                reveal_strlit("focus-sessions");
                reveal_with_fuel(plain_name, 25);
            }
            lemma_plain_reads_back("focus-sessions"@);
        },
        Action::FocusBranches => {
            assert(plain_name("focus-branches"@) && "focus-branches"@.len() > 0) by {
                reveal_strlit("focus-branches");
                reveal_with_fuel(plain_name, 25);
            }
            lemma_plain_reads_back("focus-branches"@);
        },
        Action::FocusTerminal => {
            assert(plain_name("focus-terminal"@) && "focus-terminal"@.len() > 0) by {
                reveal_strlit("focus-terminal");
                reveal_with_fuel(plain_name, 25);
            }
            lemma_plain_reads_back("focus-terminal"@);
        },
        Action::FocusGitStatus => {
            assert(plain_name("focus-git-status"@) && "focus-git-status"@.len() > 0) by {
                reveal_strlit("focus-git-status");
                reveal_with_fuel(plain_name, 25);
            }
            lemma_plain_reads_back("focus-git-status"@);
        },
        Action::FocusDiff => {
            assert(plain_name("focus-diff"@) && "focus-diff"@.len() > 0) by {
                reveal_strlit("focus-diff");
                reveal_with_fuel(plain_name, 25);
            }
            lemma_plain_reads_back("focus-diff"@);
        },
        Action::FocusNext => {
            assert(plain_name("focus-next"@) && "focus-next"@.len() > 0) by {
                reveal_strlit("focus-next");
                reveal_with_fuel(plain_name, 25);
            }
            lemma_plain_reads_back("focus-next"@);
        },
        Action::FocusPrev => {
            assert(plain_name("focus-prev"@) && "focus-prev"@.len() > 0) by {
                reveal_strlit("focus-prev");
                reveal_with_fuel(plain_name, 25);
            }
            lemma_plain_reads_back("focus-prev"@);
        },
        Action::MoveUp => {
            assert(plain_name("move-up"@) && "move-up"@.len() > 0) by {
                reveal_strlit("move-up");
                reveal_with_fuel(plain_name, 25);
            }
            lemma_plain_reads_back("move-up"@);
        },
        Action::MoveDown => {
            assert(plain_name("move-down"@) && "move-down"@.len() > 0) by {
                reveal_strlit("move-down");
                reveal_with_fuel(plain_name, 25);
            }
            lemma_plain_reads_back("move-down"@);
        },
        Action::GotoTop => {
            assert(plain_name("goto-top"@) && "goto-top"@.len() > 0) by {
                reveal_strlit("goto-top");
                reveal_with_fuel(plain_name, 25);
            }
            lemma_plain_reads_back("goto-top"@);
        },
        Action::GotoBottom => {
            assert(plain_name("goto-bottom"@) && "goto-bottom"@.len() > 0) by {
                reveal_strlit("goto-bottom");
                reveal_with_fuel(plain_name, 25);
            }
            lemma_plain_reads_back("goto-bottom"@);
        },
        Action::ToggleExpand => {
            assert(plain_name("toggle-expand"@) && "toggle-expand"@.len() > 0) by {
                reveal_strlit("toggle-expand");
                reveal_with_fuel(plain_name, 25);
            }
            lemma_plain_reads_back("toggle-expand"@);
        },
        Action::Select => {
            assert(plain_name("select"@) && "select"@.len() > 0) by {
                reveal_strlit("select");
                reveal_with_fuel(plain_name, 25);
            }
            lemma_plain_reads_back("select"@);
        },
        Action::InsertMode => {
            assert(plain_name("insert-mode"@) && "insert-mode"@.len() > 0) by {
                reveal_strlit("insert-mode");
                reveal_with_fuel(plain_name, 25);
            }
            lemma_plain_reads_back("insert-mode"@);
        },
        Action::NormalMode => {
            assert(plain_name("normal-mode"@) && "normal-mode"@.len() > 0) by {
                reveal_strlit("normal-mode");
                reveal_with_fuel(plain_name, 25);
            }
            lemma_plain_reads_back("normal-mode"@);
        },
        Action::ScrollUp => {
            assert(plain_name("scroll-up"@) && "scroll-up"@.len() > 0) by {
                reveal_strlit("scroll-up");
                reveal_with_fuel(plain_name, 25);
            }
            lemma_plain_reads_back("scroll-up"@);
        },
        Action::ScrollDown => {
            assert(plain_name("scroll-down"@) && "scroll-down"@.len() > 0) by {
                reveal_strlit("scroll-down");
                reveal_with_fuel(plain_name, 25);
            }
            lemma_plain_reads_back("scroll-down"@);
        },
        Action::ScrollHalfPageUp => {
            assert(plain_name("scroll-half-page-up"@) && "scroll-half-page-up"@.len() > 0) by {
                reveal_strlit("scroll-half-page-up");
                reveal_with_fuel(plain_name, 25);
            }
            lemma_plain_reads_back("scroll-half-page-up"@);
        },
        Action::ScrollHalfPageDown => {
            assert(plain_name("scroll-half-page-down"@) && "scroll-half-page-down"@.len() > 0) by {
                reveal_strlit("scroll-half-page-down");
                reveal_with_fuel(plain_name, 25);
            }
            lemma_plain_reads_back("scroll-half-page-down"@);
        },
        Action::ScrollTop => {
            assert(plain_name("scroll-top"@) && "scroll-top"@.len() > 0) by {
                reveal_strlit("scroll-top");
                reveal_with_fuel(plain_name, 25);
            }
            lemma_plain_reads_back("scroll-top"@);
        },
        Action::ScrollBottom => {
            assert(plain_name("scroll-bottom"@) && "scroll-bottom"@.len() > 0) by {
                reveal_strlit("scroll-bottom");
                reveal_with_fuel(plain_name, 25);
            }
            lemma_plain_reads_back("scroll-bottom"@);
        },
        Action::CreateSession => {
            assert(plain_name("create-session"@) && "create-session"@.len() > 0) by {
                reveal_strlit("create-session");
                reveal_with_fuel(plain_name, 25);
            }
            lemma_plain_reads_back("create-session"@);
        },
        Action::RenameSession => {
            assert(plain_name("rename-session"@) && "rename-session"@.len() > 0) by {
                reveal_strlit("rename-session");
                reveal_with_fuel(plain_name, 25);
            }
            lemma_plain_reads_back("rename-session"@);
        },
        Action::DeleteCurrent => {
            assert(plain_name("delete-current"@) && "delete-current"@.len() > 0) by {
                reveal_strlit("delete-current");
                reveal_with_fuel(plain_name, 25);
            }
            lemma_plain_reads_back("delete-current"@);
        },
        Action::SwitchToShell => {
            assert(plain_name("switch-to-shell"@) && "switch-to-shell"@.len() > 0) by {
                reveal_strlit("switch-to-shell");
                reveal_with_fuel(plain_name, 25);
            }
            lemma_plain_reads_back("switch-to-shell"@);
        },
        Action::AddWorktree => {
            assert(plain_name("add-worktree"@) && "add-worktree"@.len() > 0) by {
                reveal_strlit("add-worktree");
                reveal_with_fuel(plain_name, 25);
            }
            lemma_plain_reads_back("add-worktree"@);
        },
        Action::ToggleDiffView => {
            assert(plain_name("toggle-diff-view"@) && "toggle-diff-view"@.len() > 0) by {
                reveal_strlit("toggle-diff-view");
                reveal_with_fuel(plain_name, 25);
            }
            lemma_plain_reads_back("toggle-diff-view"@);
        },
        Action::PrevFile => {
            assert(plain_name("prev-file"@) && "prev-file"@.len() > 0) by {
                reveal_strlit("prev-file");
                reveal_with_fuel(plain_name, 25);
            }
            lemma_plain_reads_back("prev-file"@);
        },
        Action::NextFile => {
            assert(plain_name("next-file"@) && "next-file"@.len() > 0) by {
                reveal_strlit("next-file");
                reveal_with_fuel(plain_name, 25);
            }
            lemma_plain_reads_back("next-file"@);
        },
        Action::AddComment => {
            assert(plain_name("add-comment"@) && "add-comment"@.len() > 0) by {
                reveal_strlit("add-comment");
                reveal_with_fuel(plain_name, 25);
            }
            lemma_plain_reads_back("add-comment"@);
        },
        Action::EditComment => {
            assert(plain_name("edit-comment"@) && "edit-comment"@.len() > 0) by {
                reveal_strlit("edit-comment");
                reveal_with_fuel(plain_name, 25);
            }
            lemma_plain_reads_back("edit-comment"@);
        },
        Action::DeleteComment => {
            assert(plain_name("delete-comment"@) && "delete-comment"@.len() > 0) by {
                reveal_strlit("delete-comment");
                reveal_with_fuel(plain_name, 25);
            }
            lemma_plain_reads_back("delete-comment"@);
        },
        Action::NextComment => {
            assert(plain_name("next-comment"@) && "next-comment"@.len() > 0) by {
                reveal_strlit("next-comment");
                reveal_with_fuel(plain_name, 25);
            }
            lemma_plain_reads_back("next-comment"@);
        },
        Action::PrevComment => {
            assert(plain_name("prev-comment"@) && "prev-comment"@.len() > 0) by {
                reveal_strlit("prev-comment");
                reveal_with_fuel(plain_name, 25);
            }
            lemma_plain_reads_back("prev-comment"@);
        },
        Action::SubmitReviewClaude => {
            assert(plain_name("submit-review-agent"@) && "submit-review-agent"@.len() > 0) by {
                reveal_strlit("submit-review-agent");
                reveal_with_fuel(plain_name, 25);
            }
            lemma_plain_reads_back("submit-review-agent"@);
        },
        Action::StageFile => {
            assert(plain_name("stage-file"@) && "stage-file"@.len() > 0) by {
                reveal_strlit("stage-file");
                reveal_with_fuel(plain_name, 25);
            }
            lemma_plain_reads_back("stage-file"@);
        },
        Action::UnstageFile => {
            assert(plain_name("unstage-file"@) && "unstage-file"@.len() > 0) by {
                reveal_strlit("unstage-file");
                reveal_with_fuel(plain_name, 25);
            }
            lemma_plain_reads_back("unstage-file"@);
        },
        Action::StageAll => {
            assert(plain_name("stage-all"@) && "stage-all"@.len() > 0) by {
                reveal_strlit("stage-all");
                reveal_with_fuel(plain_name, 25);
            }
            lemma_plain_reads_back("stage-all"@);
        },
        Action::UnstageAll => {
            assert(plain_name("unstage-all"@) && "unstage-all"@.len() > 0) by {
                reveal_strlit("unstage-all");
                reveal_with_fuel(plain_name, 25);
            }
            lemma_plain_reads_back("unstage-all"@);
        },
        Action::ToggleOrOpen => {
            assert(plain_name("toggle-or-open"@) && "toggle-or-open"@.len() > 0) by {
                reveal_strlit("toggle-or-open");
                reveal_with_fuel(plain_name, 25);
            }
            lemma_plain_reads_back("toggle-or-open"@);
        },
        Action::AddTodo => {
            assert(plain_name("add-todo"@) && "add-todo"@.len() > 0) by {
                reveal_strlit("add-todo");
                reveal_with_fuel(plain_name, 25);
            }
            lemma_plain_reads_back("add-todo"@);
        },
        Action::AddChildTodo => {
            assert(plain_name("add-child-todo"@) && "add-child-todo"@.len() > 0) by {
                reveal_strlit("add-child-todo");
                reveal_with_fuel(plain_name, 25);
            }
            lemma_plain_reads_back("add-child-todo"@);
        },
        Action::EditTodoTitle => {
            assert(plain_name("edit-title"@) && "edit-title"@.len() > 0) by {
                reveal_strlit("edit-title");
                reveal_with_fuel(plain_name, 25);
            }
            lemma_plain_reads_back("edit-title"@);
        },
        Action::EditTodoDescription => {
            assert(plain_name("edit-description"@) && "edit-description"@.len() > 0) by {
                reveal_strlit("edit-description");
                reveal_with_fuel(plain_name, 25);
            }
            lemma_plain_reads_back("edit-description"@);
        },
        Action::DeleteTodo => {
            assert(plain_name("delete-todo"@) && "delete-todo"@.len() > 0) by {
                reveal_strlit("delete-todo");
                reveal_with_fuel(plain_name, 25);
            }
            lemma_plain_reads_back("delete-todo"@);
        },
        Action::ToggleTodoComplete => {
            assert(plain_name("toggle-complete"@) && "toggle-complete"@.len() > 0) by {
                reveal_strlit("toggle-complete");
                reveal_with_fuel(plain_name, 25);
            }
            lemma_plain_reads_back("toggle-complete"@);
        },
        Action::MoveTodoDown => {
            assert(plain_name("move-todo-down"@) && "move-todo-down"@.len() > 0) by {
                reveal_strlit("move-todo-down");
                reveal_with_fuel(plain_name, 25);
            }
            lemma_plain_reads_back("move-todo-down"@);
        },
        Action::MoveTodoUp => {
            assert(plain_name("move-todo-up"@) && "move-todo-up"@.len() > 0) by {
                reveal_strlit("move-todo-up");
                reveal_with_fuel(plain_name, 25);
            }
            lemma_plain_reads_back("move-todo-up"@);
        },
        Action::IndentTodo => {
            assert(plain_name("indent-todo"@) && "indent-todo"@.len() > 0) by {
                reveal_strlit("indent-todo");
                reveal_with_fuel(plain_name, 25);
            }
            lemma_plain_reads_back("indent-todo"@);
        },
        Action::DedentTodo => {
            assert(plain_name("dedent-todo"@) && "dedent-todo"@.len() > 0) by {
                reveal_strlit("dedent-todo");
                reveal_with_fuel(plain_name, 25);
            }
            lemma_plain_reads_back("dedent-todo"@);
        },
        Action::ToggleShowCompleted => {
            assert(plain_name("toggle-completed"@) && "toggle-completed"@.len() > 0) by {
                reveal_strlit("toggle-completed");
                reveal_with_fuel(plain_name, 25);
            }
            lemma_plain_reads_back("toggle-completed"@);
        },
        Action::RefreshAll => {
            assert(plain_name("refresh-all"@) && "refresh-all"@.len() > 0) by {
                reveal_strlit("refresh-all");
                reveal_with_fuel(plain_name, 25);
            }
            lemma_plain_reads_back("refresh-all"@);
        },
        Action::RefreshDiff => {
            assert(plain_name("refresh-diff"@) && "refresh-diff"@.len() > 0) by {
                reveal_strlit("refresh-diff");
                reveal_with_fuel(plain_name, 25);
            }
            lemma_plain_reads_back("refresh-diff"@);
        },
        Action::RefreshStatus => {
            assert(plain_name("refresh-status"@) && "refresh-status"@.len() > 0) by {
                reveal_strlit("refresh-status");
                reveal_with_fuel(plain_name, 25);
            }
            lemma_plain_reads_back("refresh-status"@);
        },
        Action::RefreshTodos => {
            assert(plain_name("refresh-todos"@) && "refresh-todos"@.len() > 0) by {
                reveal_strlit("refresh-todos");
                reveal_with_fuel(plain_name, 25);
            }
            lemma_plain_reads_back("refresh-todos"@);
        },
        Action::ToggleFullscreen => {
            assert(plain_name("toggle-fullscreen"@) && "toggle-fullscreen"@.len() > 0) by {
                reveal_strlit("toggle-fullscreen");
                reveal_with_fuel(plain_name, 25);
            }
            lemma_plain_reads_back("toggle-fullscreen"@);
        },
        Action::ExitFullscreen => {
            assert(plain_name("exit-fullscreen"@) && "exit-fullscreen"@.len() > 0) by {
                reveal_strlit("exit-fullscreen");
                reveal_with_fuel(plain_name, 25);
            }
            lemma_plain_reads_back("exit-fullscreen"@);
        },
        Action::ExitTerminal => {
            assert(plain_name("exit-terminal"@) && "exit-terminal"@.len() > 0) by {
                reveal_strlit("exit-terminal");
                reveal_with_fuel(plain_name, 25);
            }
            lemma_plain_reads_back("exit-terminal"@);
        },
        Action::BackToTerminal => {
            assert(plain_name("back-to-terminal"@) && "back-to-terminal"@.len() > 0) by {
                reveal_strlit("back-to-terminal");
                reveal_with_fuel(plain_name, 25);
            }
            lemma_plain_reads_back("back-to-terminal"@);
        },
        Action::ToggleTreeView => {
            assert(plain_name("toggle-tree-view"@) && "toggle-tree-view"@.len() > 0) by {
                reveal_strlit("toggle-tree-view");
                reveal_with_fuel(plain_name, 25);
            }
            lemma_plain_reads_back("toggle-tree-view"@);
        },
        Action::OpenTodo => {
            assert(plain_name("open-todo"@) && "open-todo"@.len() > 0) by {
                reveal_strlit("open-todo");
                reveal_with_fuel(plain_name, 25);
            }
            lemma_plain_reads_back("open-todo"@);
        },
        Action::ClosePopup => {
            assert(plain_name("close-popup"@) && "close-popup"@.len() > 0) by {
                reveal_strlit("close-popup");
                reveal_with_fuel(plain_name, 25);
            }
            lemma_plain_reads_back("close-popup"@);
        },
        Action::Quit => {
            assert(plain_name("quit"@) && "quit"@.len() > 0) by {
                reveal_strlit("quit");
                reveal_with_fuel(plain_name, 25);
            }
            lemma_plain_reads_back("quit"@);
        },
        Action::ShowHelp => {
            assert(plain_name("show-help"@) && "show-help"@.len() > 0) by {
                reveal_strlit("show-help");
                reveal_with_fuel(plain_name, 25);
            }
            lemma_plain_reads_back("show-help"@);
        },
        Action::Submit => {
            assert(plain_name("submit"@) && "submit"@.len() > 0) by {
                reveal_strlit("submit");
                reveal_with_fuel(plain_name, 25);
            }
            lemma_plain_reads_back("submit"@);
        },
        Action::Cancel => {
            assert(plain_name("cancel"@) && "cancel"@.len() > 0) by {
                reveal_strlit("cancel");
                reveal_with_fuel(plain_name, 25);
            }
            lemma_plain_reads_back("cancel"@);
        },
        Action::Confirm => {
            assert(plain_name("confirm"@) && "confirm"@.len() > 0) by {
                reveal_strlit("confirm");
                reveal_with_fuel(plain_name, 25);
            }
            lemma_plain_reads_back("confirm"@);
        },
        Action::InsertNewline => {
            assert(plain_name("insert-newline"@) && "insert-newline"@.len() > 0) by {
                reveal_strlit("insert-newline");
                reveal_with_fuel(plain_name, 25);
            }
            lemma_plain_reads_back("insert-newline"@);
        },
        Action::EnterCommandMode => {
            assert(plain_name("command-mode"@) && "command-mode"@.len() > 0) by {
                reveal_strlit("command-mode");
                reveal_with_fuel(plain_name, 25);
            }
            lemma_plain_reads_back("command-mode"@);
        },
        Action::Noop => {
            assert(plain_name("noop"@) && "noop"@.len() > 0) by {
                reveal_strlit("noop");
                reveal_with_fuel(plain_name, 25);
            }
            lemma_plain_reads_back("noop"@);
        },
        Action::SendToTerminal => {
            assert(plain_name("send-to-terminal"@) && "send-to-terminal"@.len() > 0) by {
                reveal_strlit("send-to-terminal");
                reveal_with_fuel(plain_name, 25);
            }
            lemma_plain_reads_back("send-to-terminal"@);
        },
    }
    law_action_names_resolve(a);
}

/// The other names accepted for an action.
pub open spec fn action_aliases(a: Action) -> Seq<Seq<char>> {
    match a {
        Action::FocusSidebar => seq!["focus-worktree"@],
        Action::FocusGitStatus => seq!["focus-git"@],
        Action::MoveUp => seq!["up"@],
        Action::MoveDown => seq!["down"@],
        Action::GotoTop => seq!["top"@],
        Action::GotoBottom => seq!["bottom"@],
        Action::ToggleExpand => seq!["expand"@],
        Action::InsertMode => seq!["insert"@],
        Action::NormalMode => seq!["terminal-normal-mode"@],
        Action::CreateSession => seq!["new-session"@],
        Action::DeleteCurrent => seq!["delete"@],
        Action::ToggleDiffView => seq!["diff"@],
        Action::StageFile => seq!["stage"@],
        Action::UnstageFile => seq!["unstage"@],
        Action::EditTodoTitle => seq!["edit-todo-title"@],
        Action::EditTodoDescription => seq!["edit-todo-description"@],
        Action::ToggleTodoComplete => seq!["toggle-todo-complete"@],
        Action::ToggleShowCompleted => seq!["toggle-show-completed"@],
        Action::RefreshAll => seq!["refresh"@],
        Action::ToggleFullscreen => seq!["fullscreen"@],
        Action::Quit => seq!["exit"@],
        Action::ShowHelp => seq!["help"@, "?"@],
        Action::EnterCommandMode => seq![":"@],
        Action::Noop => seq!["none"@],
        _ => seq![],
    }
}

/// Each alias of an action resolves to that action, as its name does.
#[verifier::rlimit(100)]
pub proof fn law_action_aliases_resolve(a: Action, i: int)
    requires
        0 <= i < action_aliases(a).len(),
    ensures
        action_for_name_spec(action_aliases(a)[i]) == Some(a),
{
    lemma_action_name_letters();
    match a {
        Action::FocusSidebar => {
            assert(action_for_name_spec("focus-worktree"@) == Some(Action::FocusSidebar));
        },
        Action::FocusGitStatus => {
            assert(action_for_name_spec("focus-git"@) == Some(Action::FocusGitStatus));
        },
        Action::MoveUp => {
            assert(action_for_name_spec("up"@) == Some(Action::MoveUp));
        },
        Action::MoveDown => {
            assert(action_for_name_spec("down"@) == Some(Action::MoveDown));
        },
        Action::GotoTop => {
            assert(action_for_name_spec("top"@) == Some(Action::GotoTop));
        },
        Action::GotoBottom => {
            assert(action_for_name_spec("bottom"@) == Some(Action::GotoBottom));
        },
        Action::ToggleExpand => {
            assert(action_for_name_spec("expand"@) == Some(Action::ToggleExpand));
        },
        Action::InsertMode => {
            assert(action_for_name_spec("insert"@) == Some(Action::InsertMode));
        },
        Action::NormalMode => {
            assert(action_for_name_spec("terminal-normal-mode"@) == Some(Action::NormalMode));
        },
        Action::CreateSession => {
            assert(action_for_name_spec("new-session"@) == Some(Action::CreateSession));
        },
        Action::DeleteCurrent => {
            assert(action_for_name_spec("delete"@) == Some(Action::DeleteCurrent));
        },
        Action::ToggleDiffView => {
            assert(action_for_name_spec("diff"@) == Some(Action::ToggleDiffView));
        },
        Action::StageFile => {
            assert(action_for_name_spec("stage"@) == Some(Action::StageFile));
        },
        Action::UnstageFile => {
            assert(action_for_name_spec("unstage"@) == Some(Action::UnstageFile));
        },
        Action::EditTodoTitle => {
            assert(action_for_name_spec("edit-todo-title"@) == Some(Action::EditTodoTitle));
        },
        Action::EditTodoDescription => {
            assert(action_for_name_spec("edit-todo-description"@) == Some(Action::EditTodoDescription));
        },
        Action::ToggleTodoComplete => {
            assert(action_for_name_spec("toggle-todo-complete"@) == Some(Action::ToggleTodoComplete));
        },
        Action::ToggleShowCompleted => {
            assert(action_for_name_spec("toggle-show-completed"@) == Some(Action::ToggleShowCompleted));
        },
        Action::RefreshAll => {
            assert(action_for_name_spec("refresh"@) == Some(Action::RefreshAll));
        },
        Action::ToggleFullscreen => {
            assert(action_for_name_spec("fullscreen"@) == Some(Action::ToggleFullscreen));
        },
        Action::Quit => {
            assert(action_for_name_spec("exit"@) == Some(Action::Quit));
        },
        Action::ShowHelp => {
            assert(action_for_name_spec("help"@) == Some(Action::ShowHelp));
            assert(action_for_name_spec("?"@) == Some(Action::ShowHelp));
        },
        Action::EnterCommandMode => {
            assert(action_for_name_spec(":"@) == Some(Action::EnterCommandMode));
        },
        Action::Noop => {
            assert(action_for_name_spec("none"@) == Some(Action::Noop));
        },
        _ => {},
    }
}

/// A name that is neither an action's name nor one of its aliases resolves
/// to no action.
pub proof fn law_other_names_resolve_to_nothing(name: Seq<char>)
    requires
        forall|a: Action| name != #[trigger] action_name(a),
        forall|a: Action| !(#[trigger] action_aliases(a)).contains(name),
    ensures
        action_for_name_spec(name) is None,
{
    assert(name != action_name(Action::FocusSidebar) && !action_aliases(Action::FocusSidebar).contains(name));
    assert(name != action_name(Action::FocusSessions) && !action_aliases(Action::FocusSessions).contains(name));
    assert(name != action_name(Action::FocusBranches) && !action_aliases(Action::FocusBranches).contains(name));
    assert(name != action_name(Action::FocusTerminal) && !action_aliases(Action::FocusTerminal).contains(name));
    assert(name != action_name(Action::FocusGitStatus) && !action_aliases(Action::FocusGitStatus).contains(name));
    assert(name != action_name(Action::FocusDiff) && !action_aliases(Action::FocusDiff).contains(name));
    assert(name != action_name(Action::FocusNext) && !action_aliases(Action::FocusNext).contains(name));
    assert(name != action_name(Action::FocusPrev) && !action_aliases(Action::FocusPrev).contains(name));
    assert(name != action_name(Action::MoveUp) && !action_aliases(Action::MoveUp).contains(name));
    assert(name != action_name(Action::MoveDown) && !action_aliases(Action::MoveDown).contains(name));
    assert(name != action_name(Action::GotoTop) && !action_aliases(Action::GotoTop).contains(name));
    assert(name != action_name(Action::GotoBottom) && !action_aliases(Action::GotoBottom).contains(name));
    assert(name != action_name(Action::ToggleExpand) && !action_aliases(Action::ToggleExpand).contains(name));
    assert(name != action_name(Action::Select) && !action_aliases(Action::Select).contains(name));
    assert(name != action_name(Action::InsertMode) && !action_aliases(Action::InsertMode).contains(name));
    assert(name != action_name(Action::NormalMode) && !action_aliases(Action::NormalMode).contains(name));
    assert(name != action_name(Action::ScrollUp) && !action_aliases(Action::ScrollUp).contains(name));
    assert(name != action_name(Action::ScrollDown) && !action_aliases(Action::ScrollDown).contains(name));
    assert(name != action_name(Action::ScrollHalfPageUp) && !action_aliases(Action::ScrollHalfPageUp).contains(name));
    assert(name != action_name(Action::ScrollHalfPageDown) && !action_aliases(Action::ScrollHalfPageDown).contains(name));
    assert(name != action_name(Action::ScrollTop) && !action_aliases(Action::ScrollTop).contains(name));
    assert(name != action_name(Action::ScrollBottom) && !action_aliases(Action::ScrollBottom).contains(name));
    assert(name != action_name(Action::CreateSession) && !action_aliases(Action::CreateSession).contains(name));
    assert(name != action_name(Action::RenameSession) && !action_aliases(Action::RenameSession).contains(name));
    assert(name != action_name(Action::DeleteCurrent) && !action_aliases(Action::DeleteCurrent).contains(name));
    assert(name != action_name(Action::SwitchToShell) && !action_aliases(Action::SwitchToShell).contains(name));
    assert(name != action_name(Action::AddWorktree) && !action_aliases(Action::AddWorktree).contains(name));
    assert(name != action_name(Action::ToggleDiffView) && !action_aliases(Action::ToggleDiffView).contains(name));
    assert(name != action_name(Action::PrevFile) && !action_aliases(Action::PrevFile).contains(name));
    assert(name != action_name(Action::NextFile) && !action_aliases(Action::NextFile).contains(name));
    assert(name != action_name(Action::AddComment) && !action_aliases(Action::AddComment).contains(name));
    assert(name != action_name(Action::EditComment) && !action_aliases(Action::EditComment).contains(name));
    assert(name != action_name(Action::DeleteComment) && !action_aliases(Action::DeleteComment).contains(name));
    assert(name != action_name(Action::NextComment) && !action_aliases(Action::NextComment).contains(name));
    assert(name != action_name(Action::PrevComment) && !action_aliases(Action::PrevComment).contains(name));
    assert(name != action_name(Action::SubmitReviewClaude) && !action_aliases(Action::SubmitReviewClaude).contains(name));
    assert(name != action_name(Action::StageFile) && !action_aliases(Action::StageFile).contains(name));
    assert(name != action_name(Action::UnstageFile) && !action_aliases(Action::UnstageFile).contains(name));
    assert(name != action_name(Action::StageAll) && !action_aliases(Action::StageAll).contains(name));
    assert(name != action_name(Action::UnstageAll) && !action_aliases(Action::UnstageAll).contains(name));
    assert(name != action_name(Action::ToggleOrOpen) && !action_aliases(Action::ToggleOrOpen).contains(name));
    assert(name != action_name(Action::AddTodo) && !action_aliases(Action::AddTodo).contains(name));
    assert(name != action_name(Action::AddChildTodo) && !action_aliases(Action::AddChildTodo).contains(name));
    assert(name != action_name(Action::EditTodoTitle) && !action_aliases(Action::EditTodoTitle).contains(name));
    assert(name != action_name(Action::EditTodoDescription) && !action_aliases(Action::EditTodoDescription).contains(name));
    assert(name != action_name(Action::DeleteTodo) && !action_aliases(Action::DeleteTodo).contains(name));
    assert(name != action_name(Action::ToggleTodoComplete) && !action_aliases(Action::ToggleTodoComplete).contains(name));
    assert(name != action_name(Action::MoveTodoDown) && !action_aliases(Action::MoveTodoDown).contains(name));
    assert(name != action_name(Action::MoveTodoUp) && !action_aliases(Action::MoveTodoUp).contains(name));
    assert(name != action_name(Action::IndentTodo) && !action_aliases(Action::IndentTodo).contains(name));
    assert(name != action_name(Action::DedentTodo) && !action_aliases(Action::DedentTodo).contains(name));
    assert(name != action_name(Action::ToggleShowCompleted) && !action_aliases(Action::ToggleShowCompleted).contains(name));
    assert(name != action_name(Action::RefreshAll) && !action_aliases(Action::RefreshAll).contains(name));
    assert(name != action_name(Action::RefreshDiff) && !action_aliases(Action::RefreshDiff).contains(name));
    assert(name != action_name(Action::RefreshStatus) && !action_aliases(Action::RefreshStatus).contains(name));
    assert(name != action_name(Action::RefreshTodos) && !action_aliases(Action::RefreshTodos).contains(name));
    assert(name != action_name(Action::ToggleFullscreen) && !action_aliases(Action::ToggleFullscreen).contains(name));
    assert(name != action_name(Action::ExitFullscreen) && !action_aliases(Action::ExitFullscreen).contains(name));
    assert(name != action_name(Action::ExitTerminal) && !action_aliases(Action::ExitTerminal).contains(name));
    assert(name != action_name(Action::BackToTerminal) && !action_aliases(Action::BackToTerminal).contains(name));
    assert(name != action_name(Action::ToggleTreeView) && !action_aliases(Action::ToggleTreeView).contains(name));
    assert(name != action_name(Action::OpenTodo) && !action_aliases(Action::OpenTodo).contains(name));
    assert(name != action_name(Action::ClosePopup) && !action_aliases(Action::ClosePopup).contains(name));
    assert(name != action_name(Action::Quit) && !action_aliases(Action::Quit).contains(name));
    assert(name != action_name(Action::ShowHelp) && !action_aliases(Action::ShowHelp).contains(name));
    assert(name != action_name(Action::Submit) && !action_aliases(Action::Submit).contains(name));
    assert(name != action_name(Action::Cancel) && !action_aliases(Action::Cancel).contains(name));
    assert(name != action_name(Action::Confirm) && !action_aliases(Action::Confirm).contains(name));
    assert(name != action_name(Action::InsertNewline) && !action_aliases(Action::InsertNewline).contains(name));
    assert(name != action_name(Action::EnterCommandMode) && !action_aliases(Action::EnterCommandMode).contains(name));
    assert(name != action_name(Action::Noop) && !action_aliases(Action::Noop).contains(name));
    assert(name != action_name(Action::SendToTerminal) && !action_aliases(Action::SendToTerminal).contains(name));
    assert forall|a: Action, i: int| 0 <= i < action_aliases(a).len() implies name != #[trigger] action_aliases(a)[i] by {
        assert(!action_aliases(a).contains(name));
    }
    assert(name != action_aliases(Action::FocusSidebar)[0]);
    assert(name != action_aliases(Action::FocusGitStatus)[0]);
    assert(name != action_aliases(Action::MoveUp)[0]);
    assert(name != action_aliases(Action::MoveDown)[0]);
    assert(name != action_aliases(Action::GotoTop)[0]);
    assert(name != action_aliases(Action::GotoBottom)[0]);
    assert(name != action_aliases(Action::ToggleExpand)[0]);
    assert(name != action_aliases(Action::InsertMode)[0]);
    assert(name != action_aliases(Action::NormalMode)[0]);
    assert(name != action_aliases(Action::CreateSession)[0]);
    assert(name != action_aliases(Action::DeleteCurrent)[0]);
    assert(name != action_aliases(Action::ToggleDiffView)[0]);
    assert(name != action_aliases(Action::StageFile)[0]);
    assert(name != action_aliases(Action::UnstageFile)[0]);
    assert(name != action_aliases(Action::EditTodoTitle)[0]);
    assert(name != action_aliases(Action::EditTodoDescription)[0]);
    assert(name != action_aliases(Action::ToggleTodoComplete)[0]);
    assert(name != action_aliases(Action::ToggleShowCompleted)[0]);
    assert(name != action_aliases(Action::RefreshAll)[0]);
    assert(name != action_aliases(Action::ToggleFullscreen)[0]);
    assert(name != action_aliases(Action::Quit)[0]);
    assert(name != action_aliases(Action::ShowHelp)[0]);
    assert(name != action_aliases(Action::ShowHelp)[1]);
    assert(name != action_aliases(Action::EnterCommandMode)[0]);
    assert(name != action_aliases(Action::Noop)[0]);
}

} // verus!
