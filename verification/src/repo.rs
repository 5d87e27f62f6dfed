//! The state of one repository as the sidebar shows it (worktrees with their
//! sessions), and how it follows the daemon's change events.

use vstd::prelude::*;
use crate::outline::{OutlineItem, outline_item, outline_item_spec, outline_total, lemma_group_start_mono, row_down, row_up};
use crate::state::{AsyncAction, DeleteTarget, DirtyFlags, Focus, InputMode, SidebarItem};
use crate::text::str_eq;

verus! {

/// A terminal session of a worktree.
#[derive(Debug)]
pub struct SessionInfo {
    pub id: String,
    pub name: String,
    pub repo_id: String,
    pub branch: String,
    pub status: i32,
    /// Whether the session runs a plain shell (`None`: not told)
    pub is_shell: Option<bool>,
}

/// A worktree (a branch checked out in its own directory).
#[derive(Debug)]
pub struct WorktreeInfo {
    pub repo_id: String,
    pub branch: String,
    pub path: String,
    pub is_main: bool,
    pub session_count: i32,
}

/// What the sidebar knows of one repository.
#[derive(Debug)]
pub struct RepoState {
    pub repo_id: String,
    pub worktrees: Vec<WorktreeInfo>,
    /// Branches without a worktree, from which one can be added
    pub available_branches: Vec<WorktreeInfo>,
    /// Sessions of the selected worktree
    pub sessions: Vec<SessionInfo>,
    /// Selected worktree
    pub branch_idx: usize,
    /// Selected session
    pub session_idx: usize,
    /// Cursor row in the tree of worktrees and sessions
    pub sidebar_cursor: usize,
    /// Which worktrees are expanded in the tree (one flag per worktree)
    pub expanded_worktrees: Vec<bool>,
    /// Sessions of each worktree, once loaded (one slot per worktree)
    pub sessions_by_worktree: Vec<Option<Vec<SessionInfo>>>,
}

/// A change the daemon reports.
#[derive(Debug)]
pub enum DaemonEvent {
    SessionCreated(SessionInfo),
    SessionDestroyed { session_id: String },
    SessionNameUpdated { session_id: String, new_name: String },
    SessionStatusChanged { session_id: String, old_status: i32, new_status: i32 },
    WorktreeAdded(WorktreeInfo),
    WorktreeRemoved { repo_id: String, branch: String },
    GitStatusChanged { repo_id: String, branch: String },
    /// An event without content
    Nothing,
}

/// How many session rows each worktree shows: its sessions when expanded and
/// loaded, else none.
pub open spec fn sidebar_rows_spec(
    expanded: Seq<bool>,
    sessions: Seq<Option<Vec<SessionInfo>>>,
) -> Seq<usize> {
    Seq::new(
        expanded.len(),
        |i: int|
            if expanded[i] && sessions[i] is Some {
                sessions[i]->Some_0@.len() as usize
            } else {
                0usize
            },
    )
}

/// The sessions without those that have the id.
pub open spec fn without_id(s: Seq<SessionInfo>, id: Seq<char>) -> Seq<SessionInfo>
    decreases s.len(),
{
    if s.len() == 0 {
        s
    } else if s.last().id@ == id {
        without_id(s.drop_last(), id)
    } else {
        without_id(s.drop_last(), id).push(s.last())
    }
}

/// The worktrees without those on the branch.
pub open spec fn without_branch(w: Seq<WorktreeInfo>, branch: Seq<char>) -> Seq<WorktreeInfo>
    decreases w.len(),
{
    if w.len() == 0 {
        w
    } else if w.last().branch@ == branch {
        without_branch(w.drop_last(), branch)
    } else {
        without_branch(w.drop_last(), branch).push(w.last())
    }
}

proof fn lemma_without_branch(w: Seq<WorktreeInfo>, branch: Seq<char>)
    ensures
        without_branch(w, branch).len() <= w.len(),
        has_branch(w, branch) ==> without_branch(w, branch).len() < w.len(),
        !has_branch(w, branch) ==> without_branch(w, branch) == w,
    decreases w.len(),
{
    if w.len() > 0 {
        let p = w.drop_last();
        lemma_without_branch(p, branch);
        if has_branch(w, branch) && w.last().branch@ != branch {
            let j = choose|j: int| 0 <= j < w.len() && (#[trigger] w[j]).branch@ == branch;
            assert(p[j].branch@ == branch);
        }
        if !has_branch(w, branch) {
            assert forall|j: int| 0 <= j < p.len() implies (#[trigger] p[j]).branch@ != branch by {
                assert(w[j] == p[j]);
            }
            assert(w.last().branch@ != branch) by {
                assert(w[w.len() - 1] == w.last());
            }
            assert(p.push(w.last()) =~= w);
        }
    }
}

/// The position of the first session with the id.
pub open spec fn first_with_id(s: Seq<SessionInfo>, id: Seq<char>) -> Option<int> {
    if exists|j: int| 0 <= j < s.len() && (#[trigger] s[j]).id@ == id {
        Some(
            choose|j: int|
                0 <= j < s.len() && (#[trigger] s[j]).id@ == id && forall|k: int|
                    0 <= k < j ==> (#[trigger] s[k]).id@ != id,
        )
    } else {
        None
    }
}

/// Whether some worktree is on the branch.
pub open spec fn has_branch(w: Seq<WorktreeInfo>, branch: Seq<char>) -> bool {
    exists|j: int| 0 <= j < w.len() && (#[trigger] w[j]).branch@ == branch
}

/// The session with its status changed.
pub open spec fn with_status(s: SessionInfo, status: i32) -> SessionInfo {
    SessionInfo { status: status, ..s }
}

/// The sessions with the status of the first one that has the id changed.
pub open spec fn status_updated(s: Seq<SessionInfo>, id: Seq<char>, status: i32) -> Seq<SessionInfo> {
    match first_with_id(s, id) {
        Some(j) => s.update(j, with_status(s[j], status)),
        None => s,
    }
}

/// Whether updating the status changes a session.
pub open spec fn status_changes(s: Seq<SessionInfo>, id: Seq<char>, status: i32) -> bool {
    match first_with_id(s, id) {
        Some(j) => s[j].status != status,
        None => false,
    }
}

proof fn lemma_first_with_id(s: Seq<SessionInfo>, id: Seq<char>, j: int)
    requires
        0 <= j < s.len(),
        s[j].id@ == id,
        forall|k: int| 0 <= k < j ==> (#[trigger] s[k]).id@ != id,
    ensures
        first_with_id(s, id) == Some(j),
{
    let c = choose|c: int|
        0 <= c < s.len() && (#[trigger] s[c]).id@ == id && forall|k: int|
            0 <= k < c ==> (#[trigger] s[k]).id@ != id;
    if c < j {
        assert(s[c].id@ != id);
    }
    if j < c {
        assert(s[j].id@ != id);
    }
}

/// The index of the first session with the id.
fn find_session(s: &Vec<SessionInfo>, id: &str) -> (r: Option<usize>)
    ensures
        r matches Some(j) ==> first_with_id(s@, id@) == Some(j as int) && j < s@.len(),
        r is None ==> first_with_id(s@, id@) is None,
{
    let mut j: usize = 0;
    while j < s.len()
        invariant
            j <= s@.len(),
            forall|k: int| 0 <= k < j ==> (#[trigger] s@[k]).id@ != id@,
        decreases s.len() - j,
    {
        if str_eq(s[j].id.as_str(), id) {
            proof {
                lemma_first_with_id(s@, id@, j as int);
            }
            return Some(j);
        }
        j = j + 1;
    }
    None
}

/// Remove the sessions with the id, keeping the order of the others.
fn retain_other_sessions(s: &mut Vec<SessionInfo>, id: &str)
    ensures
        final(s)@ == without_id(old(s)@, id@),
{
    let ghost orig = s@;
    let n: usize = s.len();
    let mut kept: Vec<SessionInfo> = Vec::new();
    let mut j: usize = 0;
    while s.len() > 0
        invariant
            j <= orig.len() == n,
            s@ == orig.skip(j as int),
            s@.len() == orig.len() - j,
            kept@ == without_id(orig.take(j as int), id@),
        decreases s@.len(),
    {
        let x = s.remove(0);
        assert(orig.take(j + 1).drop_last() =~= orig.take(j as int));
        assert(x == orig[j as int]);
        let keep = !str_eq(x.id.as_str(), id);
        if keep {
            kept.push(x);
        }
        j = j + 1;
        assert(s@ =~= orig.skip(j as int));
    }
    assert(orig.take(j as int) =~= orig);
    *s = kept;
}

/// Remove the worktrees on the branch, keeping the order of the others.
fn retain_other_worktrees(w: &mut Vec<WorktreeInfo>, branch: &str)
    ensures
        final(w)@ == without_branch(old(w)@, branch@),
{
    let ghost orig = w@;
    let n: usize = w.len();
    let mut kept: Vec<WorktreeInfo> = Vec::new();
    let mut j: usize = 0;
    while w.len() > 0
        invariant
            j <= orig.len() == n,
            w@ == orig.skip(j as int),
            w@.len() == orig.len() - j,
            kept@ == without_branch(orig.take(j as int), branch@),
        decreases w@.len(),
    {
        let x = w.remove(0);
        assert(orig.take(j + 1).drop_last() =~= orig.take(j as int));
        assert(x == orig[j as int]);
        let keep = !str_eq(x.branch.as_str(), branch);
        if keep {
            kept.push(x);
        }
        j = j + 1;
        assert(w@ =~= orig.skip(j as int));
    }
    assert(orig.take(j as int) =~= orig);
    *w = kept;
}

/// Set the status of the first session with the id; whether it changed.
fn update_status(s: &mut Vec<SessionInfo>, id: &str, status: i32) -> (r: bool)
    ensures
        final(s)@ == status_updated(old(s)@, id@, status),
        final(s)@.len() == old(s)@.len(),
        r == status_changes(old(s)@, id@, status),
{
    match find_session(s, id) {
        Some(j) => {
            if s[j].status != status {
                let mut session = s.remove(j);
                session.status = status;
                s.insert(j, session);
                assert(s@ =~= status_updated(old(s)@, id@, status));
                true
            } else {
                assert(with_status(old(s)@[j as int], status) == old(s)@[j as int]);
                assert(s@ =~= status_updated(old(s)@, id@, status));
                false
            }
        },
        None => false,
    }
}

/// The dirty flags with the sidebar marked.
pub open spec fn sidebar_marked(before: DirtyFlags, after: DirtyFlags) -> bool {
    after == DirtyFlags { sidebar: true, ..before }
}

/// The session with its name changed.
pub open spec fn with_name(s: SessionInfo, name: String) -> SessionInfo {
    SessionInfo { name: name, ..s }
}

/// A slot of loaded sessions after the status of the session with the id changed.
pub open spec fn slot_status_updated(
    before: Option<Vec<SessionInfo>>,
    after: Option<Vec<SessionInfo>>,
    id: Seq<char>,
    status: i32,
) -> bool {
    match before {
        None => after is None,
        Some(l) => after matches Some(m) && m@ == status_updated(l@, id, status),
    }
}

/// Whether the status change alters a session of the slot.
pub open spec fn slot_status_changes(slot: Option<Vec<SessionInfo>>, id: Seq<char>, status: i32) -> bool {
    match slot {
        None => false,
        Some(l) => status_changes(l@, id, status),
    }
}

/// The shortest wait between two refreshes of the git status, in milliseconds.
pub const GIT_REFRESH_DEBOUNCE_MS: u64 = 500;

/// Update the status of the session with the id in every loaded slot; whether
/// any session changed.
fn update_status_in_slots(slots: &mut Vec<Option<Vec<SessionInfo>>>, id: &str, status: i32) -> (r: bool)
    ensures
        final(slots)@.len() == old(slots)@.len(),
        forall|i: int|
            0 <= i < old(slots)@.len() ==> slot_status_updated(
                #[trigger] old(slots)@[i],
                final(slots)@[i],
                id@,
                status,
            ),
        forall|i: int|
            0 <= i < old(slots)@.len() && (#[trigger] old(slots)@[i]) is Some
                ==> final(slots)@[i]->Some_0@.len() == old(slots)@[i]->Some_0@.len(),
        r == exists|i: int|
            0 <= i < old(slots)@.len() && slot_status_changes(#[trigger] old(slots)@[i], id@, status),
{
    let ghost orig = slots@;
    let mut changed = false;
    let mut i: usize = 0;
    while i < slots.len()
        invariant
            slots@.len() == orig.len(),
            i <= orig.len(),
            forall|k: int| 0 <= k < i ==> slot_status_updated(#[trigger] orig[k], slots@[k], id@, status),
            forall|k: int|
                0 <= k < i && (#[trigger] orig[k]) is Some ==> slots@[k]->Some_0@.len() == orig[k]->Some_0@.len(),
            forall|k: int| i <= k < orig.len() ==> #[trigger] slots@[k] == orig[k],
            changed == exists|k: int| 0 <= k < i && slot_status_changes(#[trigger] orig[k], id@, status),
        decreases orig.len() - i,
    {
        let slot = slots.remove(i);
        let updated = match slot {
            Some(mut l) => {
                if update_status(&mut l, id, status) {
                    changed = true;
                }
                Some(l)
            },
            None => None,
        };
        slots.insert(i, updated);
        proof {
            if slot_status_changes(orig[i as int], id@, status) {
                assert(changed);
            }
        }
        i = i + 1;
    }
    changed
}

impl RepoState {
    /// One expansion flag and one session slot per worktree; the session lists fit.
    pub open spec fn wf(&self) -> bool {
        &&& self.expanded_worktrees@.len() == self.worktrees@.len()
        &&& self.sessions_by_worktree@.len() == self.worktrees@.len()
        &&& forall|i: int|
            0 <= i < self.sessions_by_worktree@.len() && (
            #[trigger] self.sessions_by_worktree@[i]) is Some
                ==> self.sessions_by_worktree@[i]->Some_0@.len() <= usize::MAX
    }

    /// Rows per worktree in the sidebar tree.
    pub open spec fn rows(&self) -> Seq<usize> {
        sidebar_rows_spec(self.expanded_worktrees@, self.sessions_by_worktree@)
    }

    /// A repository with no worktrees yet.
    pub fn new(repo_id: String) -> (r: Self)
        ensures
            r.wf(),
            r.repo_id == repo_id,
            r.worktrees@.len() == 0,
            r.sessions@.len() == 0,
            r.sidebar_cursor == 0,
    {
        RepoState {
            repo_id,
            worktrees: Vec::new(),
            available_branches: Vec::new(),
            sessions: Vec::new(),
            branch_idx: 0,
            session_idx: 0,
            sidebar_cursor: 0,
            expanded_worktrees: Vec::new(),
            sessions_by_worktree: Vec::new(),
        }
    }

    fn rows_exec(&self) -> (r: Vec<usize>)
        requires
            self.wf(),
        ensures
            r@ == self.rows(),
    {
        let mut r: Vec<usize> = Vec::new();
        let mut i: usize = 0;
        while i < self.worktrees.len()
            invariant
                self.wf(),
                i <= self.worktrees@.len(),
                r@ == self.rows().take(i as int),
            decreases self.worktrees.len() - i,
        {
            let n = if self.expanded_worktrees[i] {
                match &self.sessions_by_worktree[i] {
                    Some(s) => s.len(),
                    None => 0,
                }
            } else {
                0
            };
            r.push(n);
            i = i + 1;
            assert(r@ =~= self.rows().take(i as int));
        }
        assert(self.rows().take(self.worktrees@.len() as int) =~= self.rows());
        r
    }

    /// The number of rows of the sidebar tree.
    pub fn calculate_sidebar_total(&self) -> (r: usize)
        requires
            self.wf(),
            outline_total(self.rows()) <= usize::MAX,
        ensures
            r == outline_total(self.rows()),
    {
        let rows = self.rows_exec();
        let mut total: usize = 0;
        let mut i: usize = 0;
        while i < rows.len()
            invariant
                i <= rows@.len(),
                rows@ == self.rows(),
                outline_total(rows@) <= usize::MAX,
                total == crate::outline::group_start(rows@, i as int),
            decreases rows.len() - i,
        {
            proof {
                lemma_group_start_mono(rows@, i + 1, rows@.len() as int);
            }
            total = total + 1 + rows[i];
            i = i + 1;
        }
        total
    }

    /// Whether `r` is what the sidebar shows at the cursor.
    pub open spec fn item_spec(&self, r: SidebarItem) -> bool {
        outline_item_spec(
            self.rows(),
            self.sidebar_cursor as int,
            match r {
                SidebarItem::Worktree(i) => OutlineItem::Header(i),
                SidebarItem::Session(i, k) => OutlineItem::Child(i, k),
                SidebarItem::Empty => OutlineItem::Beyond,
            },
        )
    }

    /// What the sidebar shows at the cursor.
    pub open spec fn cursor_item(&self) -> SidebarItem {
        choose|r: SidebarItem| self.item_spec(r)
    }

    /// Only one item is under the cursor, so it is `cursor_item`.
    pub proof fn lemma_cursor_item(&self, r: SidebarItem)
        requires
            self.item_spec(r),
        ensures
            self.cursor_item() == r,
    {
        let c = self.cursor_item();
        let to_outline = |x: SidebarItem|
            match x {
                SidebarItem::Worktree(i) => OutlineItem::Header(i),
                SidebarItem::Session(i, k) => OutlineItem::Child(i, k),
                SidebarItem::Empty => OutlineItem::Beyond,
            };
        crate::outline::law_outline_rows_are_unique(
            self.rows(),
            self.sidebar_cursor as int,
            to_outline(r),
            to_outline(c),
        );
    }

    /// The worktree or session under the sidebar cursor.
    pub fn current_sidebar_item(&self) -> (r: SidebarItem)
        requires
            self.wf(),
        ensures
            self.item_spec(r),
            r == self.cursor_item(),
            match r {
                SidebarItem::Worktree(i) => outline_item_spec(
                    self.rows(),
                    self.sidebar_cursor as int,
                    OutlineItem::Header(i),
                ),
                SidebarItem::Session(i, k) => outline_item_spec(
                    self.rows(),
                    self.sidebar_cursor as int,
                    OutlineItem::Child(i, k),
                ),
                SidebarItem::Empty => outline_item_spec(
                    self.rows(),
                    self.sidebar_cursor as int,
                    OutlineItem::Beyond,
                ),
            },
    {
        let r = self.current_sidebar_item_raw();
        proof {
            self.lemma_cursor_item(r);
        }
        r
    }

    fn current_sidebar_item_raw(&self) -> (r: SidebarItem)
        requires
            self.wf(),
        ensures
            self.item_spec(r),
    {
        let rows = self.rows_exec();
        match outline_item(rows.as_slice(), self.sidebar_cursor) {
            OutlineItem::Header(i) => SidebarItem::Worktree(i),
            OutlineItem::Child(i, k) => SidebarItem::Session(i, k),
            OutlineItem::Beyond => SidebarItem::Empty,
        }
    }

    /// What expanding or collapsing the sidebar row under the cursor does:
    /// `after` and `dirty_after` are the state and redraw marks afterwards,
    /// `r` the action asked for.
    pub open spec fn sidebar_toggled(
        &self,
        after: RepoState,
        dirty_before: DirtyFlags,
        dirty_after: DirtyFlags,
        r: Option<AsyncAction>,
    ) -> bool {
        &&& (after.worktrees == self.worktrees)
        &&& (after.sessions_by_worktree == self.sessions_by_worktree)
        &&& (after.sidebar_cursor == self.sidebar_cursor)
        &&& (forall|i: usize|
            #![trigger outline_item_spec(self.rows(), self.sidebar_cursor as int, OutlineItem::Header(i))]
            outline_item_spec(
                self.rows(),
                self.sidebar_cursor as int,
                OutlineItem::Header(i),
            ) ==> {
                &&& after.expanded_worktrees@ == self.expanded_worktrees@.update(i as int, !self.expanded_worktrees@[i as int])
                &&& if !self.expanded_worktrees@[i as int]
                    && self.sessions_by_worktree@[i as int] is None {
                    &&& r matches Some(AsyncAction::LoadWorktreeSessions { wt_idx }) && wt_idx == i
                    &&& dirty_after == dirty_before
                } else {
                    &&& r is None
                    &&& dirty_after.sidebar
                    &&& dirty_after.terminal == dirty_before.terminal
                    &&& dirty_after.status_bar == dirty_before.status_bar
                    &&& dirty_after.full_redraw == dirty_before.full_redraw
                }
            })
        &&& ((forall|i: usize|
            !#[trigger] outline_item_spec(self.rows(), self.sidebar_cursor as int, OutlineItem::Header(i)))
            ==> r is None && after.expanded_worktrees == self.expanded_worktrees
            && dirty_after == dirty_before)
    }

    /// Expand or collapse the worktree under the cursor. Expanding a worktree
    /// whose sessions are not loaded asks for them to be loaded; otherwise the
    /// sidebar is marked for redrawing. Nothing happens off a worktree row.
    pub fn toggle_sidebar_expand(&mut self, dirty: &mut DirtyFlags) -> (r: Option<AsyncAction>)
        requires
            old(self).wf(),
        ensures
            final(self).wf(),
            old(self).sidebar_toggled(*final(self), *old(dirty), *final(dirty), r),
    {
        let item = self.current_sidebar_item();
        proof {
            assert forall|i: usize|
                outline_item_spec(self.rows(), self.sidebar_cursor as int, OutlineItem::Header(i))
                implies item == SidebarItem::Worktree(i) by {
                match item {
                    SidebarItem::Worktree(w) => crate::outline::law_outline_rows_are_unique(
                        self.rows(),
                        self.sidebar_cursor as int,
                        OutlineItem::Header(i),
                        OutlineItem::Header(w),
                    ),
                    SidebarItem::Session(w, k) => crate::outline::law_outline_rows_are_unique(
                        self.rows(),
                        self.sidebar_cursor as int,
                        OutlineItem::Header(i),
                        OutlineItem::Child(w, k),
                    ),
                    SidebarItem::Empty => crate::outline::law_outline_rows_are_unique(
                        self.rows(),
                        self.sidebar_cursor as int,
                        OutlineItem::Header(i),
                        OutlineItem::Beyond,
                    ),
                }
            }
        }
        if let SidebarItem::Worktree(wt_idx) = item {
            if self.expanded_worktrees[wt_idx] {
                self.expanded_worktrees.set(wt_idx, false);
            } else {
                self.expanded_worktrees.set(wt_idx, true);
                if self.sessions_by_worktree[wt_idx].is_none() {
                    return Some(AsyncAction::LoadWorktreeSessions { wt_idx });
                }
            }
            dirty.sidebar = true;
        }
        None
    }

    /// What `request_delete` answers for the focus: nothing off the sidebar;
    /// on the sidebar, by the row under the cursor.
    pub open spec fn delete_requested(&self, focus: Focus, r: DeleteRequest) -> bool {
        &&& focus != Focus::Sidebar ==> r is Nothing
        &&& focus == Focus::Sidebar ==> match r {
            DeleteRequest::Refused(msg) => exists|i: usize|
                #![trigger outline_item_spec(self.rows(), self.sidebar_cursor as int, OutlineItem::Header(i))]
                outline_item_spec(
                    self.rows(),
                    self.sidebar_cursor as int,
                    OutlineItem::Header(i),
                ) && {
                    let wt = self.worktrees@[i as int];
                    if wt.is_main {
                        msg@ == "Cannot remove main worktree"@
                    } else {
                        wt.path@.len() == 0 && msg@ == "No worktree to remove"@
                    }
                },
            DeleteRequest::Confirm(mode) => (exists|i: usize|
                #![trigger outline_item_spec(self.rows(), self.sidebar_cursor as int, OutlineItem::Header(i))]
                outline_item_spec(
                    self.rows(),
                    self.sidebar_cursor as int,
                    OutlineItem::Header(i),
                ) && {
                    let wt = self.worktrees@[i as int];
                    &&& !wt.is_main
                    &&& wt.path@.len() > 0
                    &&& if wt.session_count > 0 {
                        mode matches InputMode::ConfirmDeleteWorktreeSessions {
                            repo_id,
                            branch,
                            session_count,
                        } && repo_id@ == self.repo_id@ && branch@ == wt.branch@
                            && session_count == wt.session_count
                    } else {
                        mode matches InputMode::ConfirmDelete(
                            DeleteTarget::Worktree { repo_id, branch },
                        ) && repo_id@ == self.repo_id@ && branch@ == wt.branch@
                    }
                }) || (exists|i: usize, k: usize|
                #![trigger outline_item_spec(self.rows(), self.sidebar_cursor as int, OutlineItem::Child(i, k))]
                outline_item_spec(
                    self.rows(),
                    self.sidebar_cursor as int,
                    OutlineItem::Child(i, k),
                ) && {
                    let s = self.sessions_by_worktree@[i as int]->Some_0@[k as int];
                    mode matches InputMode::ConfirmDelete(
                        DeleteTarget::Session { session_id, name },
                    ) && session_id@ == s.id@ && name@ == s.name@
                }),
            DeleteRequest::Nothing => outline_item_spec(
                self.rows(),
                self.sidebar_cursor as int,
                OutlineItem::Beyond,
            ),
        }
    }

    /// The deletion that the sidebar selection asks to confirm: a worktree
    /// (asking first about its sessions when it has some) or a session; the main
    /// worktree and a worktree without a path are refused with a message.
    pub fn request_delete(&self, focus: Focus) -> (r: DeleteRequest)
        requires
            self.wf(),
        ensures
            self.delete_requested(focus, r),
    {
        if focus != Focus::Sidebar {
            return DeleteRequest::Nothing;
        }
        let rows = self.rows_exec();
        match outline_item(rows.as_slice(), self.sidebar_cursor) {
            OutlineItem::Header(wt_idx) => {
                let wt = &self.worktrees[wt_idx];
                if wt.is_main {
                    DeleteRequest::Refused("Cannot remove main worktree".to_owned())
                } else if wt.path.as_str().is_empty() {
                    DeleteRequest::Refused("No worktree to remove".to_owned())
                } else if wt.session_count > 0 {
                    DeleteRequest::Confirm(
                        InputMode::ConfirmDeleteWorktreeSessions {
                            repo_id: self.repo_id.clone(),
                            branch: wt.branch.clone(),
                            session_count: wt.session_count,
                        },
                    )
                } else {
                    DeleteRequest::Confirm(
                        InputMode::ConfirmDelete(
                            DeleteTarget::Worktree {
                                repo_id: self.repo_id.clone(),
                                branch: wt.branch.clone(),
                            },
                        ),
                    )
                }
            },
            OutlineItem::Child(wt_idx, s_idx) => {
                match &self.sessions_by_worktree[wt_idx] {
                    Some(sessions) => {
                        let session = &sessions[s_idx];
                        DeleteRequest::Confirm(
                            InputMode::ConfirmDelete(
                                DeleteTarget::Session {
                                    session_id: session.id.clone(),
                                    name: session.name.clone(),
                                },
                            ),
                        )
                    },
                    None => DeleteRequest::Nothing,
                }
            },
            OutlineItem::Beyond => DeleteRequest::Nothing,
        }
    }
}

impl RepoState {
    /// The branch of the selected worktree, when it exists.
    pub open spec fn current_branch(&self) -> Option<Seq<char>> {
        if self.branch_idx < self.worktrees@.len() {
            Some(self.worktrees@[self.branch_idx as int].branch@)
        } else {
            None
        }
    }

    /// Everything but the selected worktree's sessions is the same in `other`.
    pub open spec fn same_tree(&self, other: &RepoState) -> bool {
        &&& other.repo_id == self.repo_id
        &&& other.worktrees == self.worktrees
        &&& other.available_branches == self.available_branches
        &&& other.branch_idx == self.branch_idx
        &&& other.sidebar_cursor == self.sidebar_cursor
        &&& other.expanded_worktrees == self.expanded_worktrees
        &&& other.sessions_by_worktree == self.sessions_by_worktree
    }

    /// What a created session does: it joins the session list when it belongs
    /// to the selected worktree of this repository.
    pub open spec fn session_created(
        &self,
        after: &RepoState,
        s: SessionInfo,
        d0: DirtyFlags,
        d1: DirtyFlags,
    ) -> bool {
        if s.repo_id@ == self.repo_id@ && self.current_branch() == Some(s.branch@) {
            &&& self.same_tree(after)
            &&& after.session_idx == self.session_idx
            &&& after.sessions@ == self.sessions@.push(s)
            &&& sidebar_marked(d0, d1)
        } else {
            *after == *self && d1 == d0
        }
    }

    /// What a destroyed session does: it leaves the session list, and the
    /// selection is clamped into what is left.
    pub open spec fn session_destroyed(
        &self,
        after: &RepoState,
        id: Seq<char>,
        d0: DirtyFlags,
        d1: DirtyFlags,
    ) -> bool {
        let kept = without_id(self.sessions@, id);
        &&& self.same_tree(after)
        &&& after.sessions@ == kept
        &&& after.session_idx == if kept.len() > 0 && self.session_idx >= kept.len() {
            (kept.len() - 1) as usize
        } else {
            self.session_idx
        }
        &&& if kept.len() != self.sessions@.len() {
            sidebar_marked(d0, d1)
        } else {
            d1 == d0
        }
    }

    /// What a renamed session does: the first session with the id takes the
    /// name, when it had another one.
    pub open spec fn session_renamed(
        &self,
        after: &RepoState,
        id: Seq<char>,
        name: String,
        d0: DirtyFlags,
        d1: DirtyFlags,
    ) -> bool {
        match first_with_id(self.sessions@, id) {
            Some(j) => if self.sessions@[j].name@ != name@ {
                &&& self.same_tree(after)
                &&& after.session_idx == self.session_idx
                &&& after.sessions@ == self.sessions@.update(j, with_name(self.sessions@[j], name))
                &&& sidebar_marked(d0, d1)
            } else {
                *after == *self && d1 == d0
            },
            None => *after == *self && d1 == d0,
        }
    }

    /// What a status change does: the first session with the id takes the
    /// status in the session list and in every loaded slot of the tree.
    pub open spec fn session_status_changed(
        &self,
        after: &RepoState,
        id: Seq<char>,
        status: i32,
        d0: DirtyFlags,
        d1: DirtyFlags,
    ) -> bool {
        let changed = status_changes(self.sessions@, id, status) || exists|i: int|
            0 <= i < self.sessions_by_worktree@.len() && slot_status_changes(
                #[trigger] self.sessions_by_worktree@[i],
                id,
                status,
            );
        &&& after.repo_id == self.repo_id
        &&& after.worktrees == self.worktrees
        &&& after.available_branches == self.available_branches
        &&& after.branch_idx == self.branch_idx
        &&& after.sidebar_cursor == self.sidebar_cursor
        &&& after.expanded_worktrees == self.expanded_worktrees
        &&& after.session_idx == self.session_idx
        &&& after.sessions@ == status_updated(self.sessions@, id, status)
        &&& after.sessions_by_worktree@.len() == self.sessions_by_worktree@.len()
        &&& forall|i: int|
            0 <= i < self.sessions_by_worktree@.len() ==> slot_status_updated(
                #[trigger] self.sessions_by_worktree@[i],
                after.sessions_by_worktree@[i],
                id,
                status,
            )
        &&& if changed {
            sidebar_marked(d0, d1)
        } else {
            d1 == d0
        }
    }

    /// What an added worktree does: it is appended, collapsed and not loaded,
    /// when it belongs to this repository and its branch is not listed yet.
    pub open spec fn worktree_added(
        &self,
        after: &RepoState,
        wt: WorktreeInfo,
        d0: DirtyFlags,
        d1: DirtyFlags,
    ) -> bool {
        if wt.repo_id@ == self.repo_id@ && !has_branch(self.worktrees@, wt.branch@) {
            &&& after.repo_id == self.repo_id
            &&& after.available_branches == self.available_branches
            &&& after.worktrees@ == self.worktrees@.push(wt)
            &&& after.expanded_worktrees@ == self.expanded_worktrees@.push(false)
            &&& after.sessions_by_worktree@.len() == self.sessions_by_worktree@.len() + 1
            &&& forall|i: int|
                0 <= i < self.sessions_by_worktree@.len() ==> #[trigger] after.sessions_by_worktree@[i]
                    == self.sessions_by_worktree@[i]
            &&& after.sessions_by_worktree@.last() is None
            &&& after.sessions == self.sessions
            &&& after.branch_idx == self.branch_idx
            &&& after.session_idx == self.session_idx
            &&& after.sidebar_cursor == self.sidebar_cursor
            &&& sidebar_marked(d0, d1)
        } else {
            *after == *self && d1 == d0
        }
    }

    /// What a removed worktree does: when the event is for this repository and
    /// some worktree is on the branch, those worktrees leave, the tree is
    /// collapsed and unloaded, and the selected worktree and the cursor are
    /// clamped into what is left.
    pub open spec fn worktree_removed(
        &self,
        after: &RepoState,
        repo_id: Seq<char>,
        branch: Seq<char>,
        d0: DirtyFlags,
        d1: DirtyFlags,
    ) -> bool {
        let kept = without_branch(self.worktrees@, branch);
        if repo_id == self.repo_id@ && has_branch(self.worktrees@, branch) {
            &&& after.repo_id == self.repo_id
            &&& after.available_branches == self.available_branches
            &&& after.worktrees@ == kept
            &&& after.expanded_worktrees@ == Seq::new(kept.len(), |i: int| false)
            &&& after.sessions_by_worktree@.len() == kept.len()
            &&& forall|i: int| 0 <= i < kept.len() ==> (#[trigger] after.sessions_by_worktree@[i]) is None
            &&& after.sessions == self.sessions
            &&& after.session_idx == self.session_idx
            &&& after.branch_idx == if kept.len() == 0 {
                0
            } else if self.branch_idx >= kept.len() {
                (kept.len() - 1) as usize
            } else {
                self.branch_idx
            }
            &&& after.sidebar_cursor == if kept.len() == 0 {
                0
            } else if self.sidebar_cursor >= kept.len() {
                (kept.len() - 1) as usize
            } else {
                self.sidebar_cursor
            }
            &&& sidebar_marked(d0, d1)
        } else {
            *after == *self && d1 == d0
        }
    }

    /// Whether a change of the git status asks for a refresh: it must concern
    /// the selected worktree, and the last refresh must be at least
    /// `GIT_REFRESH_DEBOUNCE_MS` old (or not have happened).
    pub open spec fn git_refresh_due(
        &self,
        repo_id: Seq<char>,
        branch: Seq<char>,
        since_last_refresh_ms: Option<u64>,
    ) -> bool {
        &&& repo_id == self.repo_id@
        &&& self.current_branch() == Some(branch)
        &&& match since_last_refresh_ms {
            Some(ms) => ms >= GIT_REFRESH_DEBOUNCE_MS,
            None => true,
        }
    }
}

impl RepoState {
    /// Whether the repository and branch are those of the selected worktree.
    fn is_selected_worktree(&self, repo_id: &str, branch: &str) -> (r: bool)
        ensures
            r == (repo_id@ == self.repo_id@ && self.current_branch() == Some(branch@)),
    {
        self.branch_idx < self.worktrees.len() && str_eq(repo_id, self.repo_id.as_str()) && str_eq(
            branch,
            self.worktrees[self.branch_idx].branch.as_str(),
        )
    }

    /// Follow one change event of the daemon. `since_last_git_refresh_ms` is
    /// how long ago the git status was last refreshed (`None`: never); a
    /// returned action is for the caller to run.
    pub fn handle_daemon_event(
        &mut self,
        event: DaemonEvent,
        since_last_git_refresh_ms: Option<u64>,
        dirty: &mut DirtyFlags,
    ) -> (r: Option<AsyncAction>)
        requires
            old(self).wf(),
        ensures
            final(self).wf(),
            match event {
                DaemonEvent::SessionCreated(s) => r is None && old(self).session_created(
                    final(self),
                    s,
                    *old(dirty),
                    *final(dirty),
                ),
                DaemonEvent::SessionDestroyed { session_id } => r is None
                    && old(self).session_destroyed(final(self), session_id@, *old(dirty), *final(dirty)),
                DaemonEvent::SessionNameUpdated { session_id, new_name } => r is None
                    && old(self).session_renamed(
                    final(self),
                    session_id@,
                    new_name,
                    *old(dirty),
                    *final(dirty),
                ),
                DaemonEvent::SessionStatusChanged { session_id, old_status, new_status } => r is None
                    && old(self).session_status_changed(
                    final(self),
                    session_id@,
                    new_status,
                    *old(dirty),
                    *final(dirty),
                ),
                DaemonEvent::WorktreeAdded(wt) => r is None && old(self).worktree_added(
                    final(self),
                    wt,
                    *old(dirty),
                    *final(dirty),
                ),
                DaemonEvent::WorktreeRemoved { repo_id, branch } => r is None
                    && old(self).worktree_removed(
                    final(self),
                    repo_id@,
                    branch@,
                    *old(dirty),
                    *final(dirty),
                ),
                DaemonEvent::GitStatusChanged { repo_id, branch } => {
                    &&& *final(self) == *old(self)
                    &&& *final(dirty) == *old(dirty)
                    &&& if old(self).git_refresh_due(repo_id@, branch@, since_last_git_refresh_ms) {
                        r matches Some(AsyncAction::LoadGitStatus)
                    } else {
                        r is None
                    }
                },
                DaemonEvent::Nothing => r is None && *final(self) == *old(self) && *final(dirty)
                    == *old(dirty),
            },
    {
        match event {
            DaemonEvent::SessionCreated(session) => {
                if self.is_selected_worktree(session.repo_id.as_str(), session.branch.as_str()) {
                    self.sessions.push(session);
                    dirty.sidebar = true;
                }
                None
            },
            DaemonEvent::SessionDestroyed { session_id } => {
                let old_len = self.sessions.len();
                retain_other_sessions(&mut self.sessions, session_id.as_str());
                let n = self.sessions.len();
                if n > 0 && self.session_idx >= n {
                    self.session_idx = n - 1;
                }
                if n != old_len {
                    dirty.sidebar = true;
                }
                None
            },
            DaemonEvent::SessionNameUpdated { session_id, new_name } => {
                if let Some(j) = find_session(&self.sessions, session_id.as_str()) {
                    if !str_eq(self.sessions[j].name.as_str(), new_name.as_str()) {
                        let ghost before = self.sessions@;
                        let mut session = self.sessions.remove(j);
                        session.name = new_name;
                        assert(session == with_name(before[j as int], new_name));
                        self.sessions.insert(j, session);
                        assert(self.sessions@ =~= before.update(j as int, with_name(before[j as int], new_name)));
                        dirty.sidebar = true;
                    }
                }
                None
            },
            DaemonEvent::SessionStatusChanged { session_id, old_status, new_status } => {
                let in_list = update_status(&mut self.sessions, session_id.as_str(), new_status);
                let in_tree = update_status_in_slots(
                    &mut self.sessions_by_worktree,
                    session_id.as_str(),
                    new_status,
                );
                if in_list || in_tree {
                    dirty.sidebar = true;
                }

                None
            },
            DaemonEvent::WorktreeAdded(wt) => {
                if str_eq(wt.repo_id.as_str(), self.repo_id.as_str()) && !self.has_branch_exec(
                    wt.branch.as_str(),
                ) {
                    self.worktrees.push(wt);
                    self.expanded_worktrees.push(false);
                    self.sessions_by_worktree.push(None);
                    dirty.sidebar = true;
                }
                None
            },
            DaemonEvent::WorktreeRemoved { repo_id, branch } => {
                if str_eq(repo_id.as_str(), self.repo_id.as_str()) && self.has_branch_exec(
                    branch.as_str(),
                ) {
                    proof {
                        lemma_without_branch(self.worktrees@, branch@);
                    }
                    retain_other_worktrees(&mut self.worktrees, branch.as_str());
                    let n = self.worktrees.len();
                    let mut expanded: Vec<bool> = Vec::new();
                    let mut slots: Vec<Option<Vec<SessionInfo>>> = Vec::new();
                    let mut i: usize = 0;
                    while i < n
                        invariant
                            i <= n,
                            expanded@ == Seq::new(i as nat, |k: int| false),
                            slots@.len() == i,
                            forall|k: int| 0 <= k < i ==> (#[trigger] slots@[k]) is None,
                        decreases n - i,
                    {
                        expanded.push(false);
                        slots.push(None);
                        i = i + 1;
                        assert(expanded@ =~= Seq::new(i as nat, |k: int| false));
                    }
                    self.expanded_worktrees = expanded;
                    self.sessions_by_worktree = slots;
                    if n == 0 {
                        self.branch_idx = 0;
                        self.sidebar_cursor = 0;
                    } else {
                        if self.branch_idx >= n {
                            self.branch_idx = n - 1;
                        }
                        if self.sidebar_cursor >= n {
                            self.sidebar_cursor = n - 1;
                        }
                    }
                    dirty.sidebar = true;
                }
                None
            },
            DaemonEvent::GitStatusChanged { repo_id, branch } => {
                if !self.is_selected_worktree(repo_id.as_str(), branch.as_str()) {
                    return None;
                }
                match since_last_git_refresh_ms {
                    Some(ms) => if ms < GIT_REFRESH_DEBOUNCE_MS {
                        return None;
                    },
                    None => {},
                }
                Some(AsyncAction::LoadGitStatus)
            },
            DaemonEvent::Nothing => None,
        }
    }

    /// Whether some worktree is on the branch.
    fn has_branch_exec(&self, branch: &str) -> (r: bool)
        ensures
            r == has_branch(self.worktrees@, branch@),
    {
        find_worktree(&self.worktrees, branch).is_some()
    }
}

/// The name of a worktree's shell session.
pub open spec fn shell_name() -> Seq<char> {
    "__shell__"@
}

/// Whether the session is the shell session of the branch.
pub open spec fn is_shell_of(s: SessionInfo, branch: Seq<char>) -> bool {
    s.name@ == shell_name() && s.branch@ == branch && s.is_shell == Some(true)
}

/// The position of the first shell session of the branch.
pub open spec fn first_shell(s: Seq<SessionInfo>, branch: Seq<char>) -> Option<int> {
    if exists|j: int| 0 <= j < s.len() && is_shell_of(#[trigger] s[j], branch) {
        Some(choose|j: int| 0 <= j < s.len() && is_shell_of(#[trigger] s[j], branch) && forall|k: int|
            0 <= k < j ==> !is_shell_of(#[trigger] s[k], branch))
    } else {
        None
    }
}

/// A string option as values.
pub open spec fn opt_str(o: Option<String>) -> Option<Seq<char>> {
    match o {
        Some(s) => Some(s@),
        None => None,
    }
}

proof fn lemma_first_shell(s: Seq<SessionInfo>, branch: Seq<char>, j: int)
    requires
        0 <= j < s.len(),
        is_shell_of(s[j], branch),
        forall|k: int| 0 <= k < j ==> !is_shell_of(#[trigger] s[k], branch),
    ensures
        first_shell(s, branch) == Some(j),
{
    let c = choose|c: int| 0 <= c < s.len() && is_shell_of(#[trigger] s[c], branch) && forall|k: int|
        0 <= k < c ==> !is_shell_of(#[trigger] s[k], branch);
    if c < j {
        assert(!is_shell_of(s[c], branch));
    } else if c > j {
        assert(!is_shell_of(s[j], branch));
    }
}

/// The position of the first shell session of the branch.
fn find_shell(s: &Vec<SessionInfo>, branch: &str) -> (r: Option<usize>)
    ensures
        match r {
            Some(j) => j < s@.len() && first_shell(s@, branch@) == Some(j as int),
            None => first_shell(s@, branch@) is None,
        },
{
    let mut j: usize = 0;
    while j < s.len()
        invariant
            j <= s@.len(),
            forall|k: int| 0 <= k < j ==> !is_shell_of(#[trigger] s@[k], branch@),
        decreases s.len() - j,
    {
        let cand = &s[j];
        if str_eq(cand.name.as_str(), "__shell__") && str_eq(cand.branch.as_str(), branch) && match cand.is_shell {
            Some(b) => b,
            None => false,
        } {
            proof {
                reveal_strlit("__shell__");
                lemma_first_shell(s@, branch@, j as int);
            }
            return Some(j);
        }
        proof {
            reveal_strlit("__shell__");
        }
        j = j + 1;
    }
    None
}

/// What switching between a worktree's shell session and the session used
/// before it leads to.
#[derive(Debug)]
pub enum ShellSwitch {
    /// No worktree is selected
    NoWorktree,
    /// Attach to the shell session with this id
    SwitchTo(String),
    /// The worktree has no shell session yet: create it, then attach to it
    Create { repo_id: String, branch: String },
    /// Attach again to the session used before the shell, which has this id
    BackTo(String),
    /// The session used before the shell no longer exists
    PreviousGone,
    /// In the shell, with no session to go back to
    AlreadyInShell,
}

impl ShellSwitch {
    /// The status message that tells what happened (for `Create`, once the
    /// shell session exists).
    pub fn message(&self) -> (r: &'static str)
        ensures
            r@ == match self {
                ShellSwitch::NoWorktree => "No worktree selected"@,
                ShellSwitch::SwitchTo(_) => "Switched to shell session"@,
                ShellSwitch::Create { .. } => "Created shell session"@,
                ShellSwitch::BackTo(_) => "Switched back from shell"@,
                ShellSwitch::PreviousGone => "Previous session no longer exists"@,
                ShellSwitch::AlreadyInShell => "Already in shell session"@,
            },
    {
        proof {
            reveal_strlit("No worktree selected");
            reveal_strlit("Switched to shell session");
            reveal_strlit("Created shell session");
            reveal_strlit("Switched back from shell");
            reveal_strlit("Previous session no longer exists");
            reveal_strlit("Already in shell session");
        }
        match self {
            ShellSwitch::NoWorktree => "No worktree selected",
            ShellSwitch::SwitchTo(_) => "Switched to shell session",
            ShellSwitch::Create { .. } => "Created shell session",
            ShellSwitch::BackTo(_) => "Switched back from shell",
            ShellSwitch::PreviousGone => "Previous session no longer exists",
            ShellSwitch::AlreadyInShell => "Already in shell session",
        }
    }
}

/// What the sidebar cursor selected.
#[derive(Debug)]
pub struct SidebarSelection {
    /// The selected worktree is another one than before
    pub worktree_changed: bool,
    /// The session to attach the terminal to, when the cursor is on a session
    /// other than the attached one
    pub attach: Option<String>,
}

impl RepoState {
    /// What following the sidebar cursor does (see `select_from_sidebar`):
    /// `after` is the state it leaves, `attached` the session the terminal is
    /// attached to, `changed` whether another worktree got selected, and
    /// `attach` the session the terminal is to attach to.
    pub open spec fn sidebar_selected(
        &self,
        after: RepoState,
        attached: Option<Seq<char>>,
        changed: bool,
        attach: Option<Seq<char>>,
    ) -> bool {
        &&& after.repo_id == self.repo_id
        &&& after.worktrees == self.worktrees
        &&& after.available_branches == self.available_branches
        &&& after.sessions == self.sessions
        &&& after.sidebar_cursor == self.sidebar_cursor
        &&& after.expanded_worktrees == self.expanded_worktrees
        &&& after.sessions_by_worktree == self.sessions_by_worktree
        &&& changed == (after.branch_idx != self.branch_idx)
        &&& match self.cursor_item() {
            SidebarItem::Worktree(i) => after.branch_idx == i && after.session_idx == 0 && attach is None,
            SidebarItem::Session(i, k) => {
                &&& after.branch_idx == i
                &&& after.session_idx == k
                &&& match self.sessions_by_worktree@[i as int] {
                    Some(l) if k < l@.len() => if attached == Some(l@[k as int].id@) {
                        attach is None
                    } else {
                        attach == Some(l@[k as int].id@)
                    },
                    _ => attach is None,
                }
            },
            SidebarItem::Empty => after.branch_idx == self.branch_idx && after.session_idx == self.session_idx
                && attach is None,
        }
    }
}

impl RepoState {
    /// What switching to the shell does: `active` is the attached session,
    /// `before` and `after` the session to come back to before and after the
    /// switch, `r` what the caller is to do.
    pub open spec fn shell_switched(
        &self,
        active: Option<String>,
        before: Option<String>,
        after: Option<String>,
        r: ShellSwitch,
    ) -> bool {
        match self.current_branch() {
            None => r is NoWorktree && after == before,
            Some(b) => {
                let shell = first_shell(self.sessions@, b);
                let in_shell = active is Some && shell is Some && self.sessions@[shell->Some_0].id@
                    == active->Some_0@;
                if in_shell {
                    &&& after is None
                    &&& match before {
                        Some(p) => if first_with_id(self.sessions@, p@) is Some {
                            r matches ShellSwitch::BackTo(id) && id@ == p@
                        } else {
                            r is PreviousGone
                        },
                        None => r is AlreadyInShell,
                    }
                } else {
                    &&& opt_str(after) == match active {
                        Some(a) => Some(a@),
                        None => opt_str(before),
                    }
                    &&& match shell {
                        Some(j) => r matches ShellSwitch::SwitchTo(id) && id@ == self.sessions@[j].id@,
                        None => r matches ShellSwitch::Create { repo_id, branch } && repo_id@
                            == self.repo_id@ && branch@ == b,
                    }
                }
            },
        }
    }

    /// Switching to the shell twice comes back: from a session `x` that is not
    /// the worktree's shell, the first switch goes to the shell and remembers
    /// `x`; once the shell is attached, the second switch goes back to `x` and
    /// forgets it.
    pub proof fn law_shell_switch_twice_returns(
        &self,
        x: String,
        before: Option<String>,
        r1: ShellSwitch,
        remembered: Option<String>,
        attached: Option<String>,
        r2: ShellSwitch,
        after: Option<String>,
    )
        requires
            self.current_branch() is Some,
            first_shell(self.sessions@, self.current_branch()->Some_0) is Some,
            x@ != self.sessions@[first_shell(self.sessions@, self.current_branch()->Some_0)->Some_0].id@,
            first_with_id(self.sessions@, x@) is Some,
            self.shell_switched(Some(x), before, remembered, r1),
            r1 matches ShellSwitch::SwitchTo(id) ==> opt_str(attached) == Some(id@),
            self.shell_switched(attached, remembered, after, r2),
        ensures
            r1 matches ShellSwitch::SwitchTo(id) && id@ == self.sessions@[first_shell(
                self.sessions@,
                self.current_branch()->Some_0,
            )->Some_0].id@,
            opt_str(remembered) == Some(x@),
            r2 matches ShellSwitch::BackTo(id) && id@ == x@,
            after is None,
    {
    }

    /// Switch between the selected worktree's shell session and the session
    /// used before it. `active` is the attached session; `before_shell`
    /// remembers the session to come back to.
    pub fn switch_to_shell(&self, active: &Option<String>, before_shell: &mut Option<String>) -> (r:
        ShellSwitch)
        ensures
            self.shell_switched(*active, *old(before_shell), *final(before_shell), r),
    {
        if self.branch_idx >= self.worktrees.len() {
            return ShellSwitch::NoWorktree;
        }
        let branch = self.worktrees[self.branch_idx].branch.as_str();
        let shell = find_shell(&self.sessions, branch);
        let in_shell = match (active, shell) {
            (Some(a), Some(j)) => str_eq(self.sessions[j].id.as_str(), a.as_str()),
            _ => false,
        };
        if in_shell {
            let previous = before_shell.take();
            match previous {
                Some(p) => match find_session(&self.sessions, p.as_str()) {
                    Some(_) => ShellSwitch::BackTo(p),
                    None => ShellSwitch::PreviousGone,
                },
                None => ShellSwitch::AlreadyInShell,
            }
        } else {
            if let Some(a) = active {
                *before_shell = Some(a.clone());
            }
            match shell {
                Some(j) => ShellSwitch::SwitchTo(self.sessions[j].id.clone()),
                None => ShellSwitch::Create { repo_id: self.repo_id.clone(), branch: branch.to_owned() },
            }
        }
    }

    /// Follow the sidebar cursor: on a worktree it becomes the selected one
    /// (with its first session); on a session, its worktree and the session
    /// become the selected ones, and the terminal is to attach to it unless it
    /// is attached already. `active` is the attached session.
    pub fn select_from_sidebar(&mut self, active: &Option<String>) -> (r: SidebarSelection)
        requires
            old(self).wf(),
        ensures
            final(self).wf(),
            old(self).sidebar_selected(*final(self), opt_str(*active), r.worktree_changed, opt_str(r.attach)),
    {
        let before = self.branch_idx;
        let item = self.current_sidebar_item();
        let attach = match item {
            SidebarItem::Worktree(i) => {
                self.branch_idx = i;
                self.session_idx = 0;
                None
            },
            SidebarItem::Session(i, k) => {
                self.branch_idx = i;
                self.session_idx = k;
                match &self.sessions_by_worktree[i] {
                    Some(l) => if k < l.len() {
                        let id = &l[k].id;
                        let same = match active {
                            Some(a) => str_eq(a.as_str(), id.as_str()),
                            None => false,
                        };
                        if same {
                            None
                        } else {
                            Some(id.clone())
                        }
                    } else {
                        None
                    },
                    None => None,
                }
            },
            SidebarItem::Empty => None,
        };
        SidebarSelection { worktree_changed: self.branch_idx != before, attach }
    }
}

/// The repositories in the order the tab bar shows them, and the one shown.
#[derive(Debug)]
pub struct RepoList {
    pub order: Vec<String>,
    pub current: Option<String>,
}

impl RepoList {
    /// The position of the shown repository in the order (0 when none is
    /// shown or it is not listed).
    pub fn repo_idx(&self) -> (r: usize)
        ensures
            match self.current {
                Some(c) => if exists|j: int| 0 <= j < self.order@.len() && (#[trigger] self.order@[j])@ == c@ {
                    r < self.order@.len() && self.order@[r as int]@ == c@ && forall|j: int|
                        0 <= j < r ==> (#[trigger] self.order@[j])@ != c@
                } else {
                    r == 0
                },
                None => r == 0,
            },
    {
        if self.current.is_none() {
            return 0;
        }
        let target = self.current.as_ref().unwrap().as_str();
        let mut j: usize = 0;
        while j < self.order.len()
            invariant
                j <= self.order@.len(),
                self.current is Some,
                target@ == self.current->Some_0@,
                forall|k: int| 0 <= k < j ==> (#[trigger] self.order@[k])@ != target@,
            decreases self.order.len() - j,
        {
            if str_eq(self.order[j].as_str(), target) {
                assert(self.order@[j as int]@ == target@);
                return j;
            }
            j = j + 1;
        }
        0
    }

    /// Take the daemon's list of repositories as the order. The shown
    /// repository stays when it is still listed; otherwise the first one is
    /// shown, or none when the list is empty.
    pub fn set_order(&mut self, ids: Vec<String>)
        ensures
            final(self).order == ids,
            match old(self).current {
                Some(c) if exists|j: int| 0 <= j < ids@.len() && (#[trigger] ids@[j])@ == c@ => final(self).current
                    == old(self).current,
                _ => opt_str(final(self).current) == if ids@.len() > 0 {
                    Some(ids@[0]@)
                } else {
                    None
                },
            },
    {
        self.order = ids;
        let listed = match &self.current {
            Some(c) => {
                let mut found = false;
                let mut j: usize = 0;
                while j < self.order.len()
                    invariant
                        j <= self.order@.len(),
                        found == exists|k: int| 0 <= k < j && (#[trigger] self.order@[k])@ == c@,
                    decreases self.order.len() - j,
                {
                    if str_eq(self.order[j].as_str(), c.as_str()) {
                        found = true;
                    }
                    j = j + 1;
                }
                found
            },
            None => false,
        };
        if !listed {
            self.current = if self.order.len() > 0 {
                Some(self.order[0].clone())
            } else {
                None
            };
        }
    }

    /// Show the repository at position `idx`: when it is another one, it
    /// becomes the shown one and its branches are to be refreshed.
    pub fn switch_repo(&mut self, idx: usize) -> (r: Option<AsyncAction>)
        ensures
            final(self).order == old(self).order,
            if idx < old(self).order@.len() && opt_str(old(self).current) != Some(old(self).order@[idx as int]@) {
                &&& r matches Some(AsyncAction::RefreshBranches)
                &&& final(self).current matches Some(c) && c@ == old(self).order@[idx as int]@
            } else {
                r is None && final(self).current == old(self).current
            },
    {
        if idx < self.order.len() {
            let same = match &self.current {
                Some(c) => str_eq(c.as_str(), self.order[idx].as_str()),
                None => false,
            };
            if !same {
                self.current = Some(self.order[idx].clone());
                return Some(AsyncAction::RefreshBranches);
            }
        }
        None
    }
}

/// The listed branches that have a worktree (a path), in their order.
pub open spec fn with_path(all: Seq<WorktreeInfo>) -> Seq<WorktreeInfo> {
    all.filter(|w: WorktreeInfo| w.path@.len() > 0)
}

/// The listed branches without a worktree, in their order.
pub open spec fn without_path(all: Seq<WorktreeInfo>) -> Seq<WorktreeInfo> {
    all.filter(|w: WorktreeInfo| w.path@.len() == 0)
}

/// A per-worktree list fitted to `n` worktrees: the entries of the
/// positions that remain, `fresh` for the new ones.
pub open spec fn fitted<T>(s: Seq<T>, n: int, fresh: T) -> Seq<T> {
    Seq::new(n as nat, |i: int| if i < s.len() { s[i] } else { fresh })
}

/// An index kept inside a list of `len` entries (unless the list is empty).
pub open spec fn clamped(idx: usize, len: int) -> usize {
    if len > 0 && idx >= len {
        (len - 1) as usize
    } else {
        idx
    }
}

/// Whether `r` lists, in increasing order, exactly the positions whose flag is set.
pub open spec fn set_positions(flags: Seq<bool>, r: Seq<usize>) -> bool {
    &&& forall|k: int| 0 <= k < r.len() ==> (#[trigger] r[k]) < flags.len() && flags[r[k] as int]
    &&& forall|k: int, m: int| 0 <= k < m < r.len() ==> (#[trigger] r[k]) < (#[trigger] r[m])
    &&& forall|i: int| 0 <= i < flags.len() && #[trigger] flags[i] ==> r.contains(i as usize)
}

/// The expansion flags fitted to `n` worktrees.
fn fit_flags(v: &mut Vec<bool>, n: usize)
    ensures
        final(v)@ == fitted(old(v)@, n as int, false),
{
    let ghost orig = v@;
    v.truncate(n);
    while v.len() < n
        invariant
            v@.len() <= n,
            n <= orig.len() ==> v@ == orig.subrange(0, n as int),
            n > orig.len() ==> orig.len() <= v@.len() && forall|i: int|
                0 <= i < v@.len() ==> #[trigger] v@[i] == if i < orig.len() {
                    orig[i]
                } else {
                    false
                },
        decreases n - v.len(),
    {
        v.push(false);
    }
    assert(v@ =~= fitted(orig, n as int, false));
}

/// The loaded session lists fitted to `n` worktrees.
fn fit_loaded(v: &mut Vec<Option<Vec<SessionInfo>>>, n: usize)
    ensures
        final(v)@ == fitted(old(v)@, n as int, None),
{
    let ghost orig = v@;
    v.truncate(n);
    while v.len() < n
        invariant
            v@.len() <= n,
            n <= orig.len() ==> v@ == orig.subrange(0, n as int),
            n > orig.len() ==> orig.len() <= v@.len() && forall|i: int|
                0 <= i < v@.len() ==> #[trigger] v@[i] == if i < orig.len() {
                    orig[i]
                } else {
                    None
                },
        decreases n - v.len(),
    {
        v.push(None);
    }
    assert(v@ =~= fitted(orig, n as int, None));
}

impl RepoState {
    /// Take the daemon's list of branches: those with a path are the
    /// worktrees, the others the branches a worktree can be added from. The
    /// selected worktree is kept inside the list, expansion flags and loaded
    /// sessions stay with the positions that remain, and the positions of the
    /// expanded worktrees come back: their sessions are to be loaded again.
    pub fn set_worktree_list(&mut self, all: Vec<WorktreeInfo>, dirty: &mut DirtyFlags) -> (r: Vec<usize>)
        requires
            old(self).wf(),
        ensures
            final(self).wf(),
            final(self).repo_id == old(self).repo_id,
            final(self).worktrees@ == with_path(all@),
            final(self).available_branches@ == without_path(all@),
            final(self).branch_idx == clamped(old(self).branch_idx, with_path(all@).len() as int),
            final(self).expanded_worktrees@ == fitted(
                old(self).expanded_worktrees@,
                with_path(all@).len() as int,
                false,
            ),
            final(self).sessions_by_worktree@ == fitted(
                old(self).sessions_by_worktree@,
                with_path(all@).len() as int,
                None,
            ),
            final(self).sessions == old(self).sessions,
            final(self).session_idx == old(self).session_idx,
            final(self).sidebar_cursor == old(self).sidebar_cursor,
            set_positions(final(self).expanded_worktrees@, r@),
            sidebar_marked(*old(dirty), *final(dirty)),
    {
        let ghost orig = all@;
        let mut rest = all;
        let mut worktrees: Vec<WorktreeInfo> = Vec::new();
        let mut available: Vec<WorktreeInfo> = Vec::new();
        let ghost mut k: int = 0;
        while rest.len() > 0
            invariant
                0 <= k <= orig.len(),
                rest@ == orig.skip(k),
                worktrees@ == with_path(orig.take(k)),
                available@ == without_path(orig.take(k)),
            decreases rest.len(),
        {
            let w = rest.remove(0);
            proof {
                assert(orig.take(k + 1) =~= orig.take(k).push(w));
                orig.take(k).lemma_filter_push(w, |w: WorktreeInfo| w.path@.len() > 0);
                orig.take(k).lemma_filter_push(w, |w: WorktreeInfo| w.path@.len() == 0);
                k = k + 1;
                assert(rest@ =~= orig.skip(k));
            }
            if w.path.as_str().unicode_len() > 0 {
                worktrees.push(w);
            } else {
                available.push(w);
            }
        }
        proof {
            assert(orig.take(k) =~= orig);
        }
        let n = worktrees.len();
        self.worktrees = worktrees;
        self.available_branches = available;
        if n > 0 && self.branch_idx >= n {
            self.branch_idx = n - 1;
        }
        fit_flags(&mut self.expanded_worktrees, n);
        fit_loaded(&mut self.sessions_by_worktree, n);
        let mut expanded: Vec<usize> = Vec::new();
        let mut i: usize = 0;
        while i < n
            invariant
                i <= n,
                n == self.expanded_worktrees@.len(),
                forall|k: int| 0 <= k < expanded@.len() ==> (#[trigger] expanded@[k]) < i
                    && self.expanded_worktrees@[expanded@[k] as int],
                forall|k: int, m: int| 0 <= k < m < expanded@.len() ==> (#[trigger] expanded@[k]) < (
                #[trigger] expanded@[m]),
                forall|j: int| 0 <= j < i && #[trigger] self.expanded_worktrees@[j] ==> expanded@.contains(
                    j as usize,
                ),
            decreases n - i,
        {
            let ghost prev = expanded@;
            if self.expanded_worktrees[i] {
                expanded.push(i);
            }
            proof {
                assert forall|j: int| 0 <= j <= i && #[trigger] self.expanded_worktrees@[j] implies expanded@.contains(
                    j as usize,
                ) by {
                    if j < i {
                        let k = choose|k: int| 0 <= k < prev.len() && prev[k] == j as usize;
                        assert(expanded@[k] == j as usize);
                    } else {
                        assert(expanded@[expanded@.len() - 1] == i);
                    }
                }
            }
            i = i + 1;
        }
        dirty.sidebar = true;
        expanded
    }

    /// Take the daemon's sessions of the selected worktree; the selected
    /// session is kept inside the list.
    pub fn set_sessions(&mut self, sessions: Vec<SessionInfo>, dirty: &mut DirtyFlags)
        requires
            old(self).wf(),
        ensures
            final(self).wf(),
            final(self).same_tree(old(self)),
            final(self).sessions == sessions,
            final(self).session_idx == clamped(old(self).session_idx, sessions@.len() as int),
            sidebar_marked(*old(dirty), *final(dirty)),
    {
        self.sessions = sessions;
        if self.sessions.len() > 0 && self.session_idx >= self.sessions.len() {
            self.session_idx = self.sessions.len() - 1;
        }
        dirty.sidebar = true;
    }

    /// Take the daemon's sessions of the worktree at `wt_idx`, for the tree;
    /// a position past the worktrees changes nothing.
    pub fn set_worktree_sessions(&mut self, wt_idx: usize, sessions: Vec<SessionInfo>, dirty: &mut DirtyFlags)
        requires
            old(self).wf(),
        ensures
            final(self).wf(),
            if wt_idx < old(self).worktrees@.len() {
                &&& final(self).sessions_by_worktree@ == old(self).sessions_by_worktree@.update(
                    wt_idx as int,
                    Some(sessions),
                )
                &&& final(self).worktrees == old(self).worktrees
                &&& final(self).available_branches == old(self).available_branches
                &&& final(self).expanded_worktrees == old(self).expanded_worktrees
                &&& final(self).sessions == old(self).sessions
                &&& final(self).repo_id == old(self).repo_id
                &&& final(self).branch_idx == old(self).branch_idx
                &&& final(self).session_idx == old(self).session_idx
                &&& final(self).sidebar_cursor == old(self).sidebar_cursor
                &&& sidebar_marked(*old(dirty), *final(dirty))
            } else {
                *final(self) == *old(self) && *final(dirty) == *old(dirty)
            },
    {
        if wt_idx < self.worktrees.len() {
            let count = sessions.len();
            assert(count == sessions@.len());
            self.sessions_by_worktree.set(wt_idx, Some(sessions));
            dirty.sidebar = true;
        }
    }
}

/// The position of the first worktree on the branch.
pub open spec fn first_on_branch(w: Seq<WorktreeInfo>, branch: Seq<char>) -> Option<int> {
    if has_branch(w, branch) {
        Some(choose|j: int| 0 <= j < w.len() && (#[trigger] w[j]).branch@ == branch && forall|k: int|
            0 <= k < j ==> (#[trigger] w[k]).branch@ != branch)
    } else {
        None
    }
}

proof fn lemma_first_on_branch(w: Seq<WorktreeInfo>, branch: Seq<char>, j: int)
    requires
        0 <= j < w.len(),
        w[j].branch@ == branch,
        forall|k: int| 0 <= k < j ==> (#[trigger] w[k]).branch@ != branch,
    ensures
        first_on_branch(w, branch) == Some(j),
{
    let c = choose|c: int| 0 <= c < w.len() && (#[trigger] w[c]).branch@ == branch && forall|k: int|
        0 <= k < c ==> (#[trigger] w[k]).branch@ != branch;
    if c < j {
        assert(w[c].branch@ != branch);
    } else if c > j {
        assert(w[j].branch@ != branch);
    }
}

/// The position of the first worktree on the branch.
fn find_worktree(w: &Vec<WorktreeInfo>, branch: &str) -> (r: Option<usize>)
    ensures
        match r {
            Some(j) => first_on_branch(w@, branch@) == Some(j as int),
            None => first_on_branch(w@, branch@) is None,
        },
{
    let mut j: usize = 0;
    while j < w.len()
        invariant
            j <= w@.len(),
            forall|k: int| 0 <= k < j ==> (#[trigger] w@[k]).branch@ != branch@,
        decreases w.len() - j,
    {
        if str_eq(w[j].branch.as_str(), branch) {
            proof {
                lemma_first_on_branch(w@, branch@, j as int);
            }
            return Some(j);
        }
        j = j + 1;
    }
    None
}

impl RepoState {
    /// Select the first worktree on `branch`, when one is listed, and give
    /// its position; with `move_cursor` the sidebar cursor moves to the row
    /// of that number as well.
    pub fn select_worktree(&mut self, branch: &str, move_cursor: bool) -> (r: Option<usize>)
        ensures
            final(self).repo_id == old(self).repo_id,
            final(self).worktrees == old(self).worktrees,
            final(self).available_branches == old(self).available_branches,
            final(self).sessions == old(self).sessions,
            final(self).session_idx == old(self).session_idx,
            final(self).expanded_worktrees == old(self).expanded_worktrees,
            final(self).sessions_by_worktree == old(self).sessions_by_worktree,
            match first_on_branch(old(self).worktrees@, branch@) {
                Some(j) => r == Some(j as usize) && final(self).branch_idx == j && final(self).sidebar_cursor == if move_cursor {
                    j as usize
                } else {
                    old(self).sidebar_cursor
                },
                None => r is None && final(self).branch_idx == old(self).branch_idx
                    && final(self).sidebar_cursor == old(self).sidebar_cursor,
            },
    {
        match find_worktree(&self.worktrees, branch) {
            Some(j) => {
                self.branch_idx = j;
                if move_cursor {
                    self.sidebar_cursor = j;
                }
                Some(j)
            },
            None => None,
        }
    }

    /// Select the first session with the id, when one is listed, and give
    /// its position.
    pub fn select_session(&mut self, id: &str) -> (r: Option<usize>)
        ensures
            final(self).same_tree(old(self)),
            final(self).sessions == old(self).sessions,
            match first_with_id(old(self).sessions@, id@) {
                Some(j) => r == Some(j as usize) && final(self).session_idx == j,
                None => r is None && final(self).session_idx == old(self).session_idx,
            },
    {
        match find_session(&self.sessions, id) {
            Some(j) => {
                self.session_idx = j;
                Some(j)
            },
            None => None,
        }
    }
}

impl RepoState {
    /// The selected worktree, when the selection is within the list.
    pub fn current_worktree(&self) -> (r: Option<&WorktreeInfo>)
        ensures
            match r {
                Some(w) => self.branch_idx < self.worktrees@.len() && *w == self.worktrees@[self.branch_idx as int],
                None => self.branch_idx >= self.worktrees@.len(),
            },
    {
        if self.branch_idx < self.worktrees.len() {
            Some(&self.worktrees[self.branch_idx])
        } else {
            None
        }
    }

    /// The selected session, when the selection is within the list.
    pub fn current_session(&self) -> (r: Option<&SessionInfo>)
        ensures
            match r {
                Some(s) => self.session_idx < self.sessions@.len() && *s == self.sessions@[self.session_idx as int],
                None => self.session_idx >= self.sessions@.len(),
            },
    {
        if self.session_idx < self.sessions.len() {
            Some(&self.sessions[self.session_idx])
        } else {
            None
        }
    }

    /// Move the sidebar cursor one row up; whether it moved.
    pub fn move_up(&mut self) -> (r: bool)
        ensures
            *final(self) == (RepoState { sidebar_cursor: final(self).sidebar_cursor, ..*old(self) }),
            match row_up(old(self).sidebar_cursor) {
                Some(c) => r && final(self).sidebar_cursor == c,
                None => !r && final(self).sidebar_cursor == old(self).sidebar_cursor,
            },
    {
        if self.sidebar_cursor > 0 {
            self.sidebar_cursor = self.sidebar_cursor - 1;
            true
        } else {
            false
        }
    }

    /// Move the sidebar cursor one row down, when a row lies below it;
    /// whether it moved.
    pub fn move_down(&mut self) -> (r: bool)
        requires
            old(self).wf(),
            outline_total(old(self).rows()) <= usize::MAX,
        ensures
            *final(self) == (RepoState { sidebar_cursor: final(self).sidebar_cursor, ..*old(self) }),
            match row_down(old(self).sidebar_cursor, outline_total(old(self).rows())) {
                Some(c) => r && final(self).sidebar_cursor == c,
                None => !r && final(self).sidebar_cursor == old(self).sidebar_cursor,
            },
    {
        let total = self.calculate_sidebar_total();
        if self.sidebar_cursor < total && total - self.sidebar_cursor > 1 {
            self.sidebar_cursor = self.sidebar_cursor + 1;
            true
        } else {
            false
        }
    }

    /// What moving the sidebar cursor one row (up, or down) does (see
    /// `sidebar_move`): `after` and `d1` are the state and the flags it
    /// leaves, `action` and `attach` what it returns.
    pub open spec fn sidebar_moved(
        &self,
        after: RepoState,
        up: bool,
        d0: DirtyFlags,
        d1: DirtyFlags,
        attached: Option<Seq<char>>,
        action: Option<AsyncAction>,
        attach: Option<Seq<char>>,
    ) -> bool {
        match if up {
            row_up(self.sidebar_cursor)
        } else {
            row_down(self.sidebar_cursor, outline_total(self.rows()))
        } {
            Some(c) => {
                &&& (RepoState { sidebar_cursor: c, ..*self }).sidebar_selected(after, attached, action is Some, attach)
                &&& action is Some ==> action == Some(AsyncAction::LoadGitStatus)
                &&& sidebar_marked(d0, d1)
            },
            None => after == *self && d1 == d0 && action is None && attach is None,
        }
    }

    /// Move the sidebar cursor one row (up, or down) and follow it (see
    /// `select_from_sidebar`). When it moved, the sidebar is to be redrawn,
    /// the git status is to be loaded when another worktree got selected
    /// (the action returned), and the terminal is to attach to the session
    /// returned, if any. `active` is the attached session.
    pub fn sidebar_move(&mut self, up: bool, dirty: &mut DirtyFlags, active: &Option<String>) -> (r: (
        Option<AsyncAction>,
        Option<String>,
    ))
        requires
            old(self).wf(),
            outline_total(old(self).rows()) <= usize::MAX,
        ensures
            final(self).wf(),
            old(self).sidebar_moved(*final(self), up, *old(dirty), *final(dirty), opt_str(*active), r.0, opt_str(r.1)),
    {
        let moved = if up {
            self.move_up()
        } else {
            self.move_down()
        };
        if !moved {
            return (None, None);
        }
        dirty.sidebar = true;
        let sel = self.select_from_sidebar(active);
        let action = if sel.worktree_changed {
            Some(AsyncAction::LoadGitStatus)
        } else {
            None
        };
        (action, sel.attach)
    }
}

/// A destroyed session is gone: no session left after removing an id has
/// that id, and the others keep their order.
pub proof fn law_destroyed_session_gone(s: Seq<SessionInfo>, id: Seq<char>)
    ensures
        forall|j: int| 0 <= j < without_id(s, id).len() ==> (#[trigger] without_id(s, id)[j]).id@ != id,
        without_id(without_id(s, id), id) == without_id(s, id),
    decreases s.len(),
{
    if s.len() > 0 {
        law_destroyed_session_gone(s.drop_last(), id);
        let p = without_id(s.drop_last(), id);
        if s.last().id@ != id {
            assert(without_id(s, id) == p.push(s.last()));
            assert(p.push(s.last()).drop_last() =~= p);
            assert(without_id(p.push(s.last()), id) == without_id(p, id).push(s.last()));
        }
    }
}

/// A worktree is listed once: after a worktree of this repository is added,
/// the same event again changes nothing.
pub proof fn law_worktree_added_once(
    before: RepoState,
    after: RepoState,
    again: RepoState,
    wt: WorktreeInfo,
    d0: DirtyFlags,
    d1: DirtyFlags,
    d2: DirtyFlags,
)
    requires
        wt.repo_id@ == before.repo_id@,
        before.worktree_added(&after, wt, d0, d1),
        after.worktree_added(&again, wt, d1, d2),
    ensures
        again == after,
        d2 == d1,
        has_branch(after.worktrees@, wt.branch@),
{
    if !has_branch(before.worktrees@, wt.branch@) {
        let n = before.worktrees@.len() as int;
        assert(after.worktrees@[n] == wt);
    }
}

/// Applying a status change twice is applying it once, and the second time
/// changes no session.
pub proof fn law_status_change_idempotent(s: Seq<SessionInfo>, id: Seq<char>, status: i32)
    ensures
        status_updated(status_updated(s, id, status), id, status) == status_updated(s, id, status),
        !status_changes(status_updated(s, id, status), id, status),
{
    lemma_first_with_id_props(s, id);
    let t = status_updated(s, id, status);
    if let Some(j) = first_with_id(s, id) {
        assert(t[j].id@ == id);
        assert forall|k: int| 0 <= k < j implies (#[trigger] t[k]).id@ != id by {
            assert(t[k] == s[k]);
        }
        lemma_first_with_id(t, id, j);
        assert(status_updated(t, id, status) =~= t);
    } else {
        assert(t == s);
    }
}

proof fn lemma_first_with_id_props(s: Seq<SessionInfo>, id: Seq<char>)
    ensures
        first_with_id(s, id) matches Some(j) ==> 0 <= j < s.len() && s[j].id@ == id && forall|k: int|
            0 <= k < j ==> (#[trigger] s[k]).id@ != id,
{
    if exists|j: int| 0 <= j < s.len() && (#[trigger] s[j]).id@ == id {
        let j = choose|j: int| 0 <= j < s.len() && (#[trigger] s[j]).id@ == id;
        lemma_least_with_id(s, id, j);
    }
}

/// Below any session with the id there is a first one.
proof fn lemma_least_with_id(s: Seq<SessionInfo>, id: Seq<char>, j: int)
    requires
        0 <= j < s.len(),
        s[j].id@ == id,
    ensures
        exists|m: int|
            0 <= m < s.len() && (#[trigger] s[m]).id@ == id && forall|k: int|
                0 <= k < m ==> (#[trigger] s[k]).id@ != id,
    decreases j,
{
    if exists|k: int| 0 <= k < j && (#[trigger] s[k]).id@ == id {
        let k = choose|k: int| 0 <= k < j && (#[trigger] s[k]).id@ == id;
        lemma_least_with_id(s, id, k);
    } else {
        assert(forall|k: int| 0 <= k < j ==> (#[trigger] s[k]).id@ != id);
    }
}

/// What a delete request leads to.
#[derive(Debug)]
pub enum DeleteRequest {
    /// Ask the user to confirm in this input mode
    Confirm(InputMode),
    /// Show this error message
    Refused(String),
    /// Nothing to delete here
    Nothing,
}

} // verus!
