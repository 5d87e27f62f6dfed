//! TUI state types.

use vstd::prelude::*;

verus! {

/// Focus position in the TUI.
#[derive(Debug, Clone, Copy, PartialEq, Eq, Structural)]
pub enum Focus {
    /// Branch list in the sidebar (used when the tree view is off)
    Branches,
    /// Session list in the sidebar (used when the tree view is off)
    Sessions,
    /// Tree view: worktrees with nested sessions
    Sidebar,
    /// Git status panel
    GitStatus,
    /// Terminal interaction area
    Terminal,
    /// Diff file list (with inline expansion)
    DiffFiles,
}

/// Sidebar item in tree view.
#[derive(Debug, Clone, Copy, PartialEq, Eq, Structural)]
pub enum SidebarItem {
    /// Worktree at index
    Worktree(usize),
    /// (worktree index, session index within the worktree)
    Session(usize, usize),
    /// No item
    Empty,
}

/// Git status section.
#[derive(Debug, Clone, Copy, PartialEq, Eq, Hash, Structural)]
pub enum GitSection {
    Staged,
    Unstaged,
    Untracked,
}

/// A file with its git status (client-side representation).
#[derive(Debug, Clone)]
pub struct GitStatusFile {
    pub path: String,
    /// The daemon's file status code
    pub status: i32,
    pub section: GitSection,
}

/// Item in the git status panel.
#[derive(Debug, Clone, Copy, PartialEq, Eq, Structural)]
pub enum GitPanelItem {
    /// Section header
    Section(GitSection),
    /// File at this index of the status file list
    File(usize),
    /// No item
    Empty,
}

/// Right panel view mode.
#[derive(Debug, Clone, Copy, PartialEq, Eq, Structural)]
pub enum RightPanelView {
    Terminal,
    Diff,
}

impl Default for RightPanelView {
    fn default() -> (r: Self)
        ensures
            r == RightPanelView::Terminal,
    {
        RightPanelView::Terminal
    }
}

/// Current item in the diff view (for unified navigation).
#[derive(Debug, Clone, Copy, PartialEq, Eq, Structural)]
pub enum DiffItem {
    /// File at index
    File(usize),
    /// (file index, line index within that file)
    Line(usize, usize),
    /// Empty state
    Empty,
}

/// What a delete confirmation is about.
#[derive(Debug, Clone, PartialEq, Eq)]
pub enum DeleteTarget {
    Worktree { repo_id: String, branch: String },
    Session { session_id: String, name: String },
}

/// Input mode for text entry and dialogs.
#[derive(Debug, Clone, PartialEq, Eq)]
pub enum InputMode {
    Normal,
    /// Entering a new branch name (superseded by `AddWorktree`)
    NewBranch,
    /// Adding a worktree; the branch to create it from (`None`: HEAD)
    AddWorktree { base_branch: Option<String> },
    /// Renaming a session
    RenameSession { session_id: String },
    /// Confirming a deletion
    ConfirmDelete(DeleteTarget),
    /// Confirming deletion of a branch after its worktree
    ConfirmDeleteBranch(String),
    /// The worktree has sessions; confirming they are deleted first
    ConfirmDeleteWorktreeSessions { repo_id: String, branch: String, session_count: i32 },
    /// Adding a comment to a diff line
    AddLineComment { file_path: String, line_number: i32, line_type: i32 },
    /// Editing an existing comment
    EditLineComment { comment_id: String, file_path: String, line_number: i32 },
    TodoPopup,
    AddTodo { parent_id: Option<String> },
    EditTodo { todo_id: String },
    EditTodoDescription { todo_id: String },
    ConfirmDeleteTodo { todo_id: String, title: String },
}

/// Terminal mode (vim-style).
#[derive(Debug, Clone, Copy, PartialEq, Eq, Structural)]
pub enum TerminalMode {
    /// View/scroll mode
    Normal,
    /// Interactive input mode
    Insert,
}

/// Prefix key state.
#[derive(Debug, Clone, Copy, PartialEq, Eq, Structural)]
pub enum PrefixMode {
    /// No prefix active
    Inactive,
    /// Waiting for a command after the prefix key
    WaitingForCommand,
}

/// Tracks which UI components need redrawing.
#[derive(Clone, Copy, Debug, PartialEq, Eq, Structural)]
pub struct DirtyFlags {
    /// repo/branch/session list changed
    pub sidebar: bool,
    /// terminal content changed
    pub terminal: bool,
    /// status bar info changed
    pub status_bar: bool,
    /// a full redraw is needed (e.g. after a resize)
    pub full_redraw: bool,
}

impl Default for DirtyFlags {
    fn default() -> (r: Self)
        ensures
            !r.sidebar && !r.terminal && !r.status_bar && !r.full_redraw,
    {
        DirtyFlags { sidebar: false, terminal: false, status_bar: false, full_redraw: false }
    }
}

impl DirtyFlags {
    /// Whether any component needs redrawing.
    pub fn any(&self) -> (r: bool)
        ensures
            r == (self.sidebar || self.terminal || self.status_bar || self.full_redraw),
    {
        self.sidebar || self.terminal || self.status_bar || self.full_redraw
    }

    /// Reset every flag.
    pub fn clear(&mut self)
        ensures
            !final(self).sidebar && !final(self).terminal && !final(self).status_bar
                && !final(self).full_redraw,
    {
        *self = DirtyFlags { sidebar: false, terminal: false, status_bar: false, full_redraw: false };
    }

    /// Mark the sidebar, terminal and status bar dirty; `full_redraw` is left as it was.
    pub fn mark_all(&mut self)
        ensures
            final(self).sidebar && final(self).terminal && final(self).status_bar,
            final(self).full_redraw == old(self).full_redraw,
    {
        self.sidebar = true;
        self.terminal = true;
        self.status_bar = true;
    }
}


/// Actions that synchronous input handlers queue for asynchronous execution.
#[derive(Debug, PartialEq, Eq)]
pub enum AsyncAction {
    RefreshAll,
    RefreshSessions,
    RefreshBranches,
    CreateSession,
    SubmitInput,
    SubmitRenameSession,
    SubmitAddWorktree,
    ConfirmDelete,
    ConfirmDeleteBranch,
    ConfirmDeleteWorktreeSessions,
    DestroySession { session_id: String },
    RenameSession { session_id: String, new_name: String },
    ConnectStream,
    ResizeTerminal { rows: u16, cols: u16 },
    SendToTerminal { data: Vec<u8> },
    // Diff actions
    SwitchToDiffView,
    LoadDiffFiles,
    LoadFileDiff,
    // Comment actions
    LoadComments,
    SubmitLineComment,
    UpdateLineComment,
    DeleteLineComment,
    SubmitReviewToClaude,
    // Tree view actions
    LoadWorktreeSessions { wt_idx: usize },
    // Git status actions
    LoadGitStatus,
    StageFile { file_path: String },
    UnstageFile { file_path: String },
    StageAll,
    UnstageAll,
    /// Pull the selected worktree's branch
    GitPull,
    /// Push the selected worktree's branch
    GitPush,
    // Shell session action
    SwitchToShell,
    // TODO actions
    LoadTodos,
    CreateTodo { title: String, description: Option<String>, parent_id: Option<String> },
    ToggleTodo { todo_id: String },
    DeleteTodo { todo_id: String },
    UpdateTodo { todo_id: String, title: Option<String>, description: Option<String> },
    ReorderTodo { todo_id: String, new_order: i32, new_parent_id: Option<String> },
}

/// A set of git status sections (which sections are expanded).
#[derive(Debug, Clone, Copy, PartialEq, Eq, Structural)]
pub struct GitSectionSet {
    staged: bool,
    unstaged: bool,
    untracked: bool,
}

impl View for GitSectionSet {
    type V = Set<GitSection>;

    closed spec fn view(&self) -> Set<GitSection> {
        Set::new(
            |s: GitSection|
                match s {
                    GitSection::Staged => self.staged,
                    GitSection::Unstaged => self.unstaged,
                    GitSection::Untracked => self.untracked,
                },
        )
    }
}

impl GitSectionSet {
    /// The empty set.
    pub fn new() -> (r: Self)
        ensures
            r@ == Set::<GitSection>::empty(),
    {
        let r = GitSectionSet { staged: false, unstaged: false, untracked: false };
        assert(r@ =~= Set::<GitSection>::empty());
        r
    }

    /// Whether the section is in the set.
    pub fn contains(&self, section: GitSection) -> (r: bool)
        ensures
            r == self@.contains(section),
    {
        match section {
            GitSection::Staged => self.staged,
            GitSection::Unstaged => self.unstaged,
            GitSection::Untracked => self.untracked,
        }
    }

    /// Add the section; whether it was absent.
    pub fn insert(&mut self, section: GitSection) -> (r: bool)
        ensures
            final(self)@ == old(self)@.insert(section),
            r == !old(self)@.contains(section),
    {
        let was = self.contains(section);
        match section {
            GitSection::Staged => self.staged = true,
            GitSection::Unstaged => self.unstaged = true,
            GitSection::Untracked => self.untracked = true,
        }
        assert(self@ =~= old(self)@.insert(section));
        !was
    }

    /// Remove the section; whether it was present.
    pub fn remove(&mut self, section: GitSection) -> (r: bool)
        ensures
            final(self)@ == old(self)@.remove(section),
            r == old(self)@.contains(section),
    {
        let was = self.contains(section);
        match section {
            GitSection::Staged => self.staged = false,
            GitSection::Unstaged => self.unstaged = false,
            GitSection::Untracked => self.untracked = false,
        }
        assert(self@ =~= old(self)@.remove(section));
        was
    }
}

/// All sections expanded: the default state of the git panel.
pub fn default_expanded_git_sections() -> (r: GitSectionSet)
    ensures
        r@ == Set::<GitSection>::empty().insert(GitSection::Staged).insert(
            GitSection::Unstaged,
        ).insert(GitSection::Untracked),
        forall|s: GitSection| r@.contains(s),
{
    let mut set = GitSectionSet::new();
    set.insert(GitSection::Staged);
    set.insert(GitSection::Unstaged);
    set.insert(GitSection::Untracked);
    proof {
        assert forall|s: GitSection| set@.contains(s) by {
            match s {
                GitSection::Staged => {},
                GitSection::Unstaged => {},
                GitSection::Untracked => {},
            }
        }
    }
    set
}

} // verus!
