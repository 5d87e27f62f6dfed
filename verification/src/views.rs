//! What the panels show, computed apart from drawing: the rows of the
//! sidebar tree, of the flat worktree and session lists, of the git panel,
//! of the diff view and of the TODO list, with the row under the cursor
//! highlighted, and the first row shown of a list that scrolls with its
//! cursor.

use vstd::prelude::*;
use crate::outline::{group_start, lemma_group_start_mono, outline_item_spec, outline_total, OutlineItem};
use crate::repo::{opt_str, RepoState};
use crate::state::{DiffItem, GitSection, GitStatusFile, SidebarItem};
use crate::todo::{calculate_depth, depth_within, TodoItem, TodoState};
use crate::git_panel::{panel_rows, section_files, shown_sections, GitPanel};
use crate::diff_nav::{count_comments_spec, count_file_comments, line_number_spec, DiffLine, DiffState, LineComment};
use crate::review::{find_comment, first_comment_at};
use crate::overlays::{comment_lines, comment_lines_spec};
use crate::text::concat;

verus! {

/// How a row is highlighted.
#[derive(Debug, Clone, Copy, PartialEq, Eq, Structural)]
pub enum Highlight {
    /// Not under the cursor
    Plain,
    /// Under the cursor of a panel without the focus
    Cursor,
    /// Under the cursor of the focused panel
    FocusedCursor,
}

/// The highlight of row `row` when the cursor is on row `cursor`.
pub open spec fn highlight_spec(row: int, cursor: int, focused: bool) -> Highlight {
    if row == cursor {
        if focused {
            Highlight::FocusedCursor
        } else {
            Highlight::Cursor
        }
    } else {
        Highlight::Plain
    }
}

fn highlight(row: usize, cursor: usize, focused: bool) -> (r: Highlight)
    ensures
        r == highlight_spec(row as int, cursor as int, focused),
{
    if row == cursor {
        if focused {
            Highlight::FocusedCursor
        } else {
            Highlight::Cursor
        }
    } else {
        Highlight::Plain
    }
}

/// A row of the sidebar tree.
#[derive(Debug)]
pub enum TreeRow {
    /// A worktree: whether it is expanded, whether it is the main one, its
    /// branch, and how many sessions it has (those loaded, else as the
    /// daemon counted them)
    Worktree { highlight: Highlight, expanded: bool, is_main: bool, branch: String, session_count: usize },
    /// A session: whether the terminal is attached to it, whether it runs,
    /// and its name
    Session { highlight: Highlight, attached: bool, running: bool, name: String },
}

impl TreeRow {
    /// The row's highlight.
    pub open spec fn highlight_of(self) -> Highlight {
        match self {
            TreeRow::Worktree { highlight, .. } => highlight,
            TreeRow::Session { highlight, .. } => highlight,
        }
    }
}

/// Row `p` shows worktree `i` of the repository.
pub open spec fn worktree_row_ok(row: TreeRow, repo: RepoState, i: int, p: int, focused: bool) -> bool {
    match row {
        TreeRow::Worktree { highlight, expanded, is_main, branch, session_count } => {
            &&& highlight == highlight_spec(p, repo.sidebar_cursor as int, focused)
            &&& expanded == repo.expanded_worktrees@[i]
            &&& is_main == repo.worktrees@[i].is_main
            &&& branch@ == repo.worktrees@[i].branch@
            &&& session_count == match repo.sessions_by_worktree@[i] {
                Some(l) => l@.len() as usize,
                None => repo.worktrees@[i].session_count as usize,
            }
        },
        _ => false,
    }
}

/// Row `p` shows session `k` of worktree `i`; `attached` is the id of the
/// session the terminal is attached to.
pub open spec fn session_row_ok(
    row: TreeRow,
    repo: RepoState,
    i: int,
    k: int,
    p: int,
    focused: bool,
    attached: Option<Seq<char>>,
) -> bool {
    let s = repo.sessions_by_worktree@[i]->Some_0@[k];
    match row {
        TreeRow::Session { highlight, attached: on, running, name } => {
            &&& highlight == highlight_spec(p, repo.sidebar_cursor as int, focused)
            &&& on == (attached == Some(s.id@))
            &&& running == (s.status == 1)
            &&& name@ == s.name@
        },
        _ => false,
    }
}

/// `r` is the sidebar tree of the repository: a row per worktree, followed by
/// a row per session when it is expanded and its sessions are loaded.
pub open spec fn tree_rows_ok(repo: RepoState, r: Seq<TreeRow>, focused: bool, attached: Option<Seq<char>>) -> bool {
    let rows = repo.rows();
    &&& r.len() == outline_total(rows)
    &&& forall|i: int|
        0 <= i < rows.len() ==> worktree_row_ok(
            #[trigger] r[group_start(rows, i)],
            repo,
            i,
            group_start(rows, i),
            focused,
        )
    &&& forall|i: int, k: int|
        0 <= i < rows.len() && 0 <= k < rows[i] ==> session_row_ok(
            #[trigger] r[group_start(rows, i) + 1 + k],
            repo,
            i,
            k,
            group_start(rows, i) + 1 + k,
            focused,
            attached,
        )
}

/// Append a row per session of worktree `i`, whose loaded sessions are `l`.
fn push_session_rows(
    r: &mut Vec<TreeRow>,
    repo: &RepoState,
    i: usize,
    l: &Vec<crate::repo::SessionInfo>,
    focused: bool,
    attached: &Option<String>,
)
    requires
        i < repo.sessions_by_worktree@.len(),
        repo.sessions_by_worktree@[i as int] == Some(*l),
        old(r)@.len() + l@.len() <= usize::MAX,
    ensures
        final(r)@.len() == old(r)@.len() + l@.len(),
        forall|x: int| 0 <= x < old(r)@.len() ==> #[trigger] final(r)@[x] == old(r)@[x],
        forall|m: int|
            0 <= m < l@.len() ==> session_row_ok(
                #[trigger] final(r)@[old(r)@.len() + m],
                *repo,
                i as int,
                m,
                old(r)@.len() + m,
                focused,
                opt_str(*attached),
            ),
{
    let ghost base = r@;
    let mut k: usize = 0;
    while k < l.len()
        invariant
            i < repo.sessions_by_worktree@.len(),
            repo.sessions_by_worktree@[i as int] == Some(*l),
            base.len() + l@.len() <= usize::MAX,
            k <= l@.len(),
            r@.len() == base.len() + k,
            forall|x: int| 0 <= x < base.len() ==> #[trigger] r@[x] == base[x],
            forall|m: int|
                0 <= m < k ==> session_row_ok(
                    #[trigger] r@[base.len() + m],
                    *repo,
                    i as int,
                    m,
                    base.len() + m,
                    focused,
                    opt_str(*attached),
                ),
        decreases l.len() - k,
    {
        let s = &l[k];
        let is_attached = match attached {
            Some(a) => crate::text::str_eq(a.as_str(), s.id.as_str()),
            None => false,
        };
        let pos = r.len();
        r.push(
            TreeRow::Session {
                highlight: highlight(pos, repo.sidebar_cursor, focused),
                attached: is_attached,
                running: s.status == 1,
                name: s.name.clone(),
            },
        );
        proof {
            assert(r@[base.len() + k] == r@[pos as int]);
        }
        k = k + 1;
    }
}

/// The rows of the sidebar tree.
pub fn sidebar_tree_rows(repo: &RepoState, focused: bool, attached: &Option<String>) -> (r: Vec<TreeRow>)
    requires
        repo.wf(),
        outline_total(repo.rows()) <= usize::MAX,
    ensures
        tree_rows_ok(*repo, r@, focused, opt_str(*attached)),
{
    let ghost rows = repo.rows();
    let mut r: Vec<TreeRow> = Vec::new();
    let mut i: usize = 0;
    while i < repo.worktrees.len()
        invariant
            repo.wf(),
            rows == repo.rows(),
            rows.len() == repo.worktrees@.len(),
            outline_total(rows) <= usize::MAX,
            i <= rows.len(),
            r@.len() == group_start(rows, i as int),
            forall|j: int|
                0 <= j < i ==> worktree_row_ok(
                    #[trigger] r@[group_start(rows, j)],
                    *repo,
                    j,
                    group_start(rows, j),
                    focused,
                ),
            forall|j: int, k: int|
                0 <= j < i && 0 <= k < rows[j] ==> session_row_ok(
                    #[trigger] r@[group_start(rows, j) + 1 + k],
                    *repo,
                    j,
                    k,
                    group_start(rows, j) + 1 + k,
                    focused,
                    opt_str(*attached),
                ),
        decreases repo.worktrees.len() - i,
    {
        proof {
            lemma_group_start_mono(rows, i as int, i + 1);
            lemma_group_start_mono(rows, i + 1, rows.len() as int);
        }
        let ghost prev = r@;
        let wt = &repo.worktrees[i];
        let count = match &repo.sessions_by_worktree[i] {
            Some(l) => l.len(),
            None => wt.session_count as usize,
        };
        let start = r.len();
        r.push(
            TreeRow::Worktree {
                highlight: highlight(start, repo.sidebar_cursor, focused),
                expanded: repo.expanded_worktrees[i],
                is_main: wt.is_main,
                branch: wt.branch.clone(),
                session_count: count,
            },
        );
        let ghost with_header = r@;
        if repo.expanded_worktrees[i] {
            match &repo.sessions_by_worktree[i] {
                Some(l) => {
                    push_session_rows(&mut r, repo, i, l, focused, attached);
                },
                None => {},
            }
        }
        proof {
            assert(r@.len() == group_start(rows, i + 1));
            assert(r@[start as int] == with_header[start as int]);
            assert forall|x: int| 0 <= x < start implies #[trigger] r@[x] == prev[x] by {
                assert(r@[x] == with_header[x]);
            }
            assert forall|j: int| 0 <= j < i + 1 implies worktree_row_ok(
                #[trigger] r@[group_start(rows, j)],
                *repo,
                j,
                group_start(rows, j),
                focused,
            ) by {
                if j < i {
                    lemma_group_start_mono(rows, j, i as int);
                    lemma_group_start_mono(rows, 0, j);
                    assert(r@[group_start(rows, j)] == prev[group_start(rows, j)]);
                }
            }
            assert forall|j: int, k: int| 0 <= j < i + 1 && 0 <= k < rows[j] implies session_row_ok(
                #[trigger] r@[group_start(rows, j) + 1 + k],
                *repo,
                j,
                k,
                group_start(rows, j) + 1 + k,
                focused,
                opt_str(*attached),
            ) by {
                if j < i {
                    lemma_group_start_mono(rows, j, i as int);
                    lemma_group_start_mono(rows, 0, j);
                    assert(r@[group_start(rows, j) + 1 + k] == prev[group_start(rows, j) + 1 + k]);
                } else {
                    assert(r@[start + 1 + k] == r@[group_start(rows, j) + 1 + k]);
                }
            }
        }
        i = i + 1;
    }
    r
}

/// The highlighted row of the sidebar tree is the sidebar's selection: the
/// worktree or session that the cursor selects is the one its row shows,
/// highlighted, and every other row is plain; a cursor past the rows
/// highlights none.
pub proof fn law_tree_highlight_is_selection(
    repo: RepoState,
    r: Seq<TreeRow>,
    focused: bool,
    attached: Option<Seq<char>>,
)
    requires
        repo.wf(),
        tree_rows_ok(repo, r, focused, attached),
    ensures
        forall|p: int|
            0 <= p < r.len() && p != repo.sidebar_cursor ==> (#[trigger] r[p]).highlight_of() == Highlight::Plain,
        match repo.cursor_item() {
            SidebarItem::Worktree(i) => {
                &&& worktree_row_ok(r[repo.sidebar_cursor as int], repo, i as int, repo.sidebar_cursor as int, focused)
                &&& r[repo.sidebar_cursor as int].highlight_of() != Highlight::Plain
            },
            SidebarItem::Session(i, k) => {
                &&& session_row_ok(
                    r[repo.sidebar_cursor as int],
                    repo,
                    i as int,
                    k as int,
                    repo.sidebar_cursor as int,
                    focused,
                    attached,
                )
                &&& r[repo.sidebar_cursor as int].highlight_of() != Highlight::Plain
            },
            SidebarItem::Empty => repo.sidebar_cursor >= r.len(),
        },
{
    let rows = repo.rows();
    assert(repo.worktrees.len() == repo.worktrees@.len());
    assert forall|p: int| 0 <= p < r.len() && p != repo.sidebar_cursor implies (#[trigger] r[p]).highlight_of()
        == Highlight::Plain by {
        crate::outline::lemma_row_has_item(rows, p);
        let it = choose|it: OutlineItem| outline_item_spec(rows, p, it);
        match it {
            OutlineItem::Header(i) => {
                assert(worktree_row_ok(r[group_start(rows, i as int)], repo, i as int, group_start(rows, i as int), focused));
            },
            OutlineItem::Child(i, k) => {
                assert(session_row_ok(
                    r[group_start(rows, i as int) + 1 + k],
                    repo,
                    i as int,
                    k as int,
                    group_start(rows, i as int) + 1 + k,
                    focused,
                    attached,
                ));
            },
            OutlineItem::Beyond => {},
        }
    }
    crate::outline::lemma_row_has_item(rows, repo.sidebar_cursor as int);
    let it = choose|it: OutlineItem| outline_item_spec(rows, repo.sidebar_cursor as int, it);
    let item = match it {
        OutlineItem::Header(i) => SidebarItem::Worktree(i),
        OutlineItem::Child(i, k) => SidebarItem::Session(i, k),
        OutlineItem::Beyond => SidebarItem::Empty,
    };
    assert(repo.item_spec(item));
    repo.lemma_cursor_item(item);
    match it {
        OutlineItem::Header(i) => {
            assert(worktree_row_ok(r[group_start(rows, i as int)], repo, i as int, group_start(rows, i as int), focused));
        },
        OutlineItem::Child(i, k) => {
            assert(session_row_ok(
                r[group_start(rows, i as int) + 1 + k],
                repo,
                i as int,
                k as int,
                group_start(rows, i as int) + 1 + k,
                focused,
                attached,
            ));
        },
        OutlineItem::Beyond => {},
    }
}

/// A row of the git panel.
#[derive(Debug)]
pub enum GitRow {
    /// A section with files: whether it is expanded and how many files it has
    Section { highlight: Highlight, expanded: bool, section: GitSection, file_count: usize },
    /// A file of an expanded section: its path, its status code, and how many
    /// review comments sit on its lines
    File { highlight: Highlight, path: String, status: i32, comment_count: usize },
    /// No file has changed
    NoChanges,
}

/// Row `p` shows shown section `i` of the panel.
pub open spec fn section_row_ok(row: GitRow, panel: GitPanel, i: int, p: int, focused: bool) -> bool {
    let s = shown_sections(panel.files@)[i];
    match row {
        GitRow::Section { highlight, expanded, section, file_count } => {
            &&& highlight == highlight_spec(p, panel.cursor as int, focused)
            &&& expanded == panel.expanded_sections@.contains(s)
            &&& section == s
            &&& file_count == section_files(panel.files@, s).len()
        },
        _ => false,
    }
}

/// Row `p` shows file `k` of shown section `i`.
pub open spec fn file_row_ok(
    row: GitRow,
    panel: GitPanel,
    comments: Seq<LineComment>,
    i: int,
    k: int,
    p: int,
    focused: bool,
) -> bool {
    let f: GitStatusFile = panel.files@[section_files(panel.files@, shown_sections(panel.files@)[i])[k]];
    match row {
        GitRow::File { highlight, path, status, comment_count } => {
            &&& highlight == highlight_spec(p, panel.cursor as int, focused)
            &&& path@ == f.path@
            &&& status == f.status
            &&& comment_count == count_comments_spec(comments, f.path@)
        },
        _ => false,
    }
}

/// `r` is the git panel: a row per section with files, followed by a row per
/// file when the section is expanded; a single row saying so when no file
/// changed.
pub open spec fn git_rows_ok(panel: GitPanel, comments: Seq<LineComment>, r: Seq<GitRow>, focused: bool) -> bool {
    let rows = panel_rows(panel.files@, panel.expanded_sections@);
    if rows.len() == 0 {
        r.len() == 1 && r[0] is NoChanges
    } else {
        &&& r.len() == outline_total(rows)
        &&& forall|i: int|
            0 <= i < rows.len() ==> section_row_ok(
                #[trigger] r[group_start(rows, i)],
                panel,
                i,
                group_start(rows, i),
                focused,
            )
        &&& forall|i: int, k: int|
            0 <= i < rows.len() && 0 <= k < rows[i] ==> file_row_ok(
                #[trigger] r[group_start(rows, i) + 1 + k],
                panel,
                comments,
                i,
                k,
                group_start(rows, i) + 1 + k,
                focused,
            )
    }
}

/// Append a row per file of shown section `i`, whose files are at the
/// positions `list`.
fn push_file_rows(
    r: &mut Vec<GitRow>,
    panel: &GitPanel,
    comments: &[LineComment],
    i: usize,
    list: &Vec<usize>,
    focused: bool,
)
    requires
        i < shown_sections(panel.files@).len(),
        list@.map_values(|j: usize| j as int) == section_files(panel.files@, shown_sections(panel.files@)[i as int]),
        old(r)@.len() + list@.len() <= usize::MAX,
    ensures
        final(r)@.len() == old(r)@.len() + list@.len(),
        forall|x: int| 0 <= x < old(r)@.len() ==> #[trigger] final(r)@[x] == old(r)@[x],
        forall|m: int|
            0 <= m < list@.len() ==> file_row_ok(
                #[trigger] final(r)@[old(r)@.len() + m],
                *panel,
                comments@,
                i as int,
                m,
                old(r)@.len() + m,
                focused,
            ),
{
    let ghost base = r@;
    proof {
        crate::git_panel::lemma_section_files_bounds(panel.files@, shown_sections(panel.files@)[i as int]);
    }
    let mut k: usize = 0;
    while k < list.len()
        invariant
            i < shown_sections(panel.files@).len(),
            list@.map_values(|j: usize| j as int) == section_files(panel.files@, shown_sections(panel.files@)[i as int]),
            forall|m: int|
                0 <= m < section_files(panel.files@, shown_sections(panel.files@)[i as int]).len() ==> {
                    let j = #[trigger] section_files(panel.files@, shown_sections(panel.files@)[i as int])[m];
                    0 <= j < panel.files@.len()
                },
            base.len() + list@.len() <= usize::MAX,
            k <= list@.len(),
            r@.len() == base.len() + k,
            forall|x: int| 0 <= x < base.len() ==> #[trigger] r@[x] == base[x],
            forall|m: int|
                0 <= m < k ==> file_row_ok(
                    #[trigger] r@[base.len() + m],
                    *panel,
                    comments@,
                    i as int,
                    m,
                    base.len() + m,
                    focused,
                ),
        decreases list.len() - k,
    {
        proof {
            assert(list@.map_values(|j: usize| j as int)[k as int] == list@[k as int] as int);
        }
        let f = &panel.files[list[k]];
        let pos = r.len();
        r.push(
            GitRow::File {
                highlight: highlight(pos, panel.cursor, focused),
                path: f.path.clone(),
                status: f.status,
                comment_count: count_file_comments(comments, f.path.as_str()),
            },
        );
        proof {
            assert(r@[base.len() + k] == r@[pos as int]);
        }
        k = k + 1;
    }
}

/// The rows of the git panel; `comments` are the review comments of the
/// worktree.
pub fn git_panel_rows(panel: &GitPanel, comments: &[LineComment], focused: bool) -> (r: Vec<GitRow>)
    requires
        outline_total(panel_rows(panel.files@, panel.expanded_sections@)) <= usize::MAX,
    ensures
        git_rows_ok(*panel, comments@, r@, focused),
{
    let ghost rows = panel_rows(panel.files@, panel.expanded_sections@);
    let (sections, lists) = panel.shown_lists();
    let mut r: Vec<GitRow> = Vec::new();
    if sections.len() == 0 {
        r.push(GitRow::NoChanges);
        return r;
    }
    let mut i: usize = 0;
    while i < sections.len()
        invariant
            sections@ == shown_sections(panel.files@),
            lists@.len() == sections@.len(),
            forall|m: int|
                0 <= m < lists@.len() ==> (#[trigger] lists@[m])@.map_values(|j: usize| j as int)
                    == section_files(panel.files@, sections@[m]),
            rows == panel_rows(panel.files@, panel.expanded_sections@),
            rows.len() == sections@.len(),
            outline_total(rows) <= usize::MAX,
            i <= rows.len(),
            r@.len() == group_start(rows, i as int),
            forall|j: int|
                0 <= j < i ==> section_row_ok(
                    #[trigger] r@[group_start(rows, j)],
                    *panel,
                    j,
                    group_start(rows, j),
                    focused,
                ),
            forall|j: int, k: int|
                0 <= j < i && 0 <= k < rows[j] ==> file_row_ok(
                    #[trigger] r@[group_start(rows, j) + 1 + k],
                    *panel,
                    comments@,
                    j,
                    k,
                    group_start(rows, j) + 1 + k,
                    focused,
                ),
        decreases sections.len() - i,
    {
        proof {
            lemma_group_start_mono(rows, i as int, i + 1);
            lemma_group_start_mono(rows, i + 1, rows.len() as int);
            assert(lists@[i as int]@.map_values(|j: usize| j as int).len() == lists@[i as int]@.len());
        }
        let ghost prev = r@;
        let section = sections[i];
        let expanded = panel.expanded_sections.contains(section);
        let start = r.len();
        r.push(
            GitRow::Section {
                highlight: highlight(start, panel.cursor, focused),
                expanded,
                section,
                file_count: lists[i].len(),
            },
        );
        let ghost with_header = r@;
        if expanded {
            push_file_rows(&mut r, panel, comments, i, &lists[i], focused);
        }
        proof {
            assert(r@.len() == group_start(rows, i + 1));
            assert(r@[start as int] == with_header[start as int]);
            assert forall|x: int| 0 <= x < start implies #[trigger] r@[x] == prev[x] by {
                assert(r@[x] == with_header[x]);
            }
            assert forall|j: int| 0 <= j < i + 1 implies section_row_ok(
                #[trigger] r@[group_start(rows, j)],
                *panel,
                j,
                group_start(rows, j),
                focused,
            ) by {
                if j < i {
                    lemma_group_start_mono(rows, j, i as int);
                    lemma_group_start_mono(rows, 0, j);
                    assert(r@[group_start(rows, j)] == prev[group_start(rows, j)]);
                }
            }
            assert forall|j: int, k: int| 0 <= j < i + 1 && 0 <= k < rows[j] implies file_row_ok(
                #[trigger] r@[group_start(rows, j) + 1 + k],
                *panel,
                comments@,
                j,
                k,
                group_start(rows, j) + 1 + k,
                focused,
            ) by {
                if j < i {
                    lemma_group_start_mono(rows, j, i as int);
                    lemma_group_start_mono(rows, 0, j);
                    assert(r@[group_start(rows, j) + 1 + k] == prev[group_start(rows, j) + 1 + k]);
                } else {
                    assert(r@[start + 1 + k] == r@[group_start(rows, j) + 1 + k]);
                }
            }
        }
        i = i + 1;
    }
    r
}

impl GitRow {
    /// The row's highlight.
    pub open spec fn highlight_of(self) -> Highlight {
        match self {
            GitRow::Section { highlight, .. } => highlight,
            GitRow::File { highlight, .. } => highlight,
            GitRow::NoChanges => Highlight::Plain,
        }
    }
}

/// The highlighted row of the git panel is the panel's selection: the
/// section or file under the cursor is the one its row shows, highlighted,
/// and every other row is plain.
pub proof fn law_git_highlight_is_selection(
    panel: GitPanel,
    comments: Seq<LineComment>,
    r: Seq<GitRow>,
    focused: bool,
    item: crate::state::GitPanelItem,
)
    requires
        git_rows_ok(panel, comments, r, focused),
        crate::git_panel::panel_item_spec(panel.files@, panel.expanded_sections@, panel.cursor as int, item),
    ensures
        forall|p: int|
            0 <= p < r.len() && p != panel.cursor ==> (#[trigger] r[p]).highlight_of() == Highlight::Plain,
        match item {
            crate::state::GitPanelItem::Section(s) => r[panel.cursor as int] matches GitRow::Section {
                highlight,
                section,
                ..
            } && section == s && highlight != Highlight::Plain,
            crate::state::GitPanelItem::File(f) => r[panel.cursor as int] matches GitRow::File {
                highlight,
                path,
                ..
            } && path@ == panel.files@[f as int].path@ && highlight != Highlight::Plain,
            crate::state::GitPanelItem::Empty => r.len() > 0 && r[0] is NoChanges || panel.cursor >= r.len(),
        },
{
    let rows = panel_rows(panel.files@, panel.expanded_sections@);
    let shown = shown_sections(panel.files@);
    crate::git_panel::section_order().lemma_filter_len(|s: GitSection| section_files(panel.files@, s).len() > 0);
    assert(rows.len() == shown.len());
    if rows.len() > 0 {
        assert forall|p: int| 0 <= p < r.len() && p != panel.cursor implies (#[trigger] r[p]).highlight_of()
            == Highlight::Plain by {
            crate::outline::lemma_row_has_item(rows, p);
            let it = choose|it: OutlineItem| outline_item_spec(rows, p, it);
            match it {
                OutlineItem::Header(i) => {
                    assert(section_row_ok(r[group_start(rows, i as int)], panel, i as int, group_start(rows, i as int), focused));
                },
                OutlineItem::Child(i, k) => {
                    assert(file_row_ok(
                        r[group_start(rows, i as int) + 1 + k],
                        panel,
                        comments,
                        i as int,
                        k as int,
                        group_start(rows, i as int) + 1 + k,
                        focused,
                    ));
                },
                OutlineItem::Beyond => {},
            }
        }
        match item {
            crate::state::GitPanelItem::Section(s) => {
                let i = choose|i: usize|
                    outline_item_spec(rows, panel.cursor as int, OutlineItem::Header(i)) && shown[i as int] == s;
                assert(section_row_ok(r[group_start(rows, i as int)], panel, i as int, group_start(rows, i as int), focused));
            },
            crate::state::GitPanelItem::File(f) => {
                let (i, k) = choose|i: usize, k: usize|
                    outline_item_spec(rows, panel.cursor as int, OutlineItem::Child(i, k))
                        && section_files(panel.files@, shown[i as int])[k as int] == f;
                assert(file_row_ok(
                    r[group_start(rows, i as int) + 1 + k],
                    panel,
                    comments,
                    i as int,
                    k as int,
                    group_start(rows, i as int) + 1 + k,
                    focused,
                ));
            },
            crate::state::GitPanelItem::Empty => {},
        }
    }
}

/// A line of the TODO list.
#[derive(Debug)]
pub struct TodoRow {
    pub under_cursor: bool,
    pub completed: bool,
    pub text: String,
}

/// Two spaces per level of nesting.
pub open spec fn indent_spec(depth: nat) -> Seq<char> {
    Seq::new(2 * depth, |i: int| ' ')
}

/// A TODO as its line reads: indented by its depth, a check box, its title,
/// and its description in brackets when it has a non-empty one.
pub open spec fn todo_text_spec(item: TodoItem, depth: nat) -> Seq<char> {
    indent_spec(depth) + if item.completed {
        "[x]"@
    } else {
        "[ ]"@
    } + " "@ + item.title@ + match item.description {
        Some(d) => if d@.len() > 0 {
            " ("@ + d@ + ")"@
        } else {
            Seq::empty()
        },
        None => Seq::empty(),
    }
}

/// The nesting depth of the item at position `i`.
pub open spec fn todo_depth(items: Seq<TodoItem>, i: int) -> nat {
    depth_within(items, i, items.len() + 1)->Some_0
}

/// The line of a TODO at the given depth.
fn todo_text(item: &TodoItem, depth: usize) -> (r: String)
    ensures
        r@ == todo_text_spec(*item, depth as nat),
{
    let mut indent = String::new();
    let mut k: usize = 0;
    while k < depth
        invariant
            k <= depth,
            indent@ == indent_spec(k as nat),
        decreases depth - k,
    {
        proof {
            reveal_strlit("  ");
        }
        indent = concat(indent.as_str(), "  ");
        k = k + 1;
        assert(indent@ =~= indent_spec(k as nat));
    }
    proof {
        reveal_strlit("[x]");
        reveal_strlit("[ ]");
        reveal_strlit(" ");
        reveal_strlit(" (");
        reveal_strlit(")");
    }
    let boxed = concat(indent.as_str(), if item.completed {
        "[x]"
    } else {
        "[ ]"
    });
    let spaced = concat(boxed.as_str(), " ");
    let titled = concat(spaced.as_str(), item.title.as_str());
    let r = match &item.description {
        Some(d) => if d.as_str().unicode_len() > 0 {
            let open = concat(titled.as_str(), " (");
            let inner = concat(open.as_str(), d.as_str());
            concat(inner.as_str(), ")")
        } else {
            titled
        },
        None => titled,
    };
    assert(r@ =~= todo_text_spec(*item, depth as nat));
    r
}

/// The lines of the TODO list, in listing order. Every listed item's chain
/// of parents must end.
pub fn todo_rows(state: &TodoState) -> (r: Vec<TodoRow>)
    requires
        forall|k: int|
            0 <= k < state.display_order@.len() ==> {
                let i = #[trigger] state.display_order@[k] as int;
                i < state.items@.len() && depth_within(state.items@, i, state.items@.len() + 1) is Some
            },
    ensures
        r@.len() == state.display_order@.len(),
        forall|k: int|
            0 <= k < r@.len() ==> {
                let item = state.items@[state.display_order@[k] as int];
                &&& (#[trigger] r@[k]).under_cursor == (k == state.cursor)
                &&& r@[k].completed == item.completed
                &&& r@[k].text@ == todo_text_spec(item, todo_depth(state.items@, state.display_order@[k] as int))
            },
{
    let mut r: Vec<TodoRow> = Vec::new();
    let mut k: usize = 0;
    while k < state.display_order.len()
        invariant
            k <= state.display_order@.len(),
            r@.len() == k,
            forall|m: int|
                0 <= m < state.display_order@.len() ==> {
                    let i = #[trigger] state.display_order@[m] as int;
                    i < state.items@.len() && depth_within(state.items@, i, state.items@.len() + 1) is Some
                },
            forall|m: int|
                0 <= m < k ==> {
                    let item = state.items@[state.display_order@[m] as int];
                    &&& (#[trigger] r@[m]).under_cursor == (m == state.cursor)
                    &&& r@[m].completed == item.completed
                    &&& r@[m].text@ == todo_text_spec(item, todo_depth(state.items@, state.display_order@[m] as int))
                },
        decreases state.display_order.len() - k,
    {
        let i = state.display_order[k];
        let item = &state.items[i];
        let depth = calculate_depth(state.items.as_slice(), i);
        r.push(TodoRow { under_cursor: k == state.cursor, completed: item.completed, text: todo_text(item, depth) });
        k = k + 1;
    }
    r
}

/// A row of the diff view. Rows name what they show by position: files in
/// the file list, lines in their file, comments in the comment list.
#[derive(Debug, Clone, Copy, PartialEq, Eq, Structural)]
pub enum DiffRow {
    /// The header of a file: whether it is expanded and how many comments
    /// sit on its lines
    File { highlight: Highlight, file: usize, expanded: bool, comment_count: usize },
    /// A line of an expanded file: its kind, the line number it shows, and
    /// whether a comment sits on it
    Line { highlight: Highlight, file: usize, line: usize, line_type: i32, number: i32, commented: bool },
    /// The top of the box of a comment: the file and line it sits on
    CommentTop { file: usize, number: i32 },
    /// Part `part` of the text of the comment at position `comment` (see
    /// `comment_lines`)
    CommentText { comment: usize, part: usize },
    /// The bottom of the box of a comment
    CommentBottom,
}

/// The highlight of the row of `item` when `current` is under the cursor.
pub open spec fn item_highlight(item: DiffItem, current: DiffItem, focused: bool) -> Highlight {
    if item == current {
        if focused {
            Highlight::FocusedCursor
        } else {
            Highlight::Cursor
        }
    } else {
        Highlight::Plain
    }
}

/// The box of the comment at position `j` on line `number` of file `i`.
pub open spec fn comment_box_rows(comments: Seq<LineComment>, j: int, i: int, number: i32) -> Seq<DiffRow> {
    seq![DiffRow::CommentTop { file: i as usize, number }] + Seq::new(
        comment_lines_spec(comments[j].comment@).len(),
        |p: int| DiffRow::CommentText { comment: j as usize, part: p as usize },
    ) + seq![DiffRow::CommentBottom]
}

/// The rows of line `k` of file `i`: the line, then the box of the first
/// comment on it when there is one.
pub open spec fn line_rows(
    diff: DiffState,
    comments: Seq<LineComment>,
    current: DiffItem,
    focused: bool,
    i: int,
    k: int,
) -> Seq<DiffRow> {
    let l: DiffLine = diff.file_lines@[i]->Some_0@[k];
    let number = line_number_spec(l, k as usize);
    let found = first_comment_at(comments, diff.files@[i]@, number);
    seq![
        DiffRow::Line {
            highlight: item_highlight(DiffItem::Line(i as usize, k as usize), current, focused),
            file: i as usize,
            line: k as usize,
            line_type: l.line_type,
            number,
            commented: found is Some,
        },
    ] + match found {
        Some(j) => comment_box_rows(comments, j, i, number),
        None => Seq::empty(),
    }
}

/// The rows of the first `m` lines of file `i`.
pub open spec fn lines_rows(
    diff: DiffState,
    comments: Seq<LineComment>,
    current: DiffItem,
    focused: bool,
    i: int,
    m: int,
) -> Seq<DiffRow>
    decreases m,
{
    if m <= 0 {
        Seq::empty()
    } else {
        lines_rows(diff, comments, current, focused, i, m - 1) + line_rows(diff, comments, current, focused, i, m - 1)
    }
}

/// The rows of file `i`: its header, then its lines when it is expanded and
/// they are loaded.
pub open spec fn file_rows(
    diff: DiffState,
    comments: Seq<LineComment>,
    current: DiffItem,
    focused: bool,
    i: int,
) -> Seq<DiffRow> {
    let header = DiffRow::File {
        highlight: item_highlight(DiffItem::File(i as usize), current, focused),
        file: i as usize,
        expanded: diff.expanded@[i],
        comment_count: count_comments_spec(comments, diff.files@[i]@) as usize,
    };
    seq![header] + if diff.expanded@[i] && diff.file_lines@[i] is Some {
        lines_rows(diff, comments, current, focused, i, diff.file_lines@[i]->Some_0@.len() as int)
    } else {
        Seq::empty()
    }
}

/// The rows of the first `n` files.
pub open spec fn files_rows(diff: DiffState, comments: Seq<LineComment>, current: DiffItem, focused: bool, n: int) -> Seq<
    DiffRow,
>
    decreases n,
{
    if n <= 0 {
        Seq::empty()
    } else {
        files_rows(diff, comments, current, focused, n - 1) + file_rows(diff, comments, current, focused, n - 1)
    }
}

/// Append the rows of line `k` of file `i`.
fn push_line_rows(
    r: &mut Vec<DiffRow>,
    diff: &DiffState,
    comments: &[LineComment],
    current: DiffItem,
    focused: bool,
    i: usize,
    lines: &Vec<DiffLine>,
    k: usize,
)
    requires
        diff.wf(),
        i < diff.files@.len(),
        diff.file_lines@[i as int] == Some(*lines),
        k < lines@.len(),
    ensures
        final(r)@ == old(r)@ + line_rows(*diff, comments@, current, focused, i as int, k as int),
{
    let l = lines[k];
    let number = match l.new_lineno {
        Some(n) => n,
        None => match l.old_lineno {
            Some(o) => o,
            None => k as i32,
        },
    };
    let found = find_comment(comments, diff.files[i].as_str(), number);
    let ghost before = r@;
    let item = DiffItem::Line(i, k);
    let highlight = if item == current {
        if focused {
            Highlight::FocusedCursor
        } else {
            Highlight::Cursor
        }
    } else {
        Highlight::Plain
    };
    r.push(DiffRow::Line { highlight, file: i, line: k, line_type: l.line_type, number, commented: found.is_some() });
    match found {
        Some(j) => {
            r.push(DiffRow::CommentTop { file: i, number });
            let parts = comment_lines(comments[j].comment.as_str()).len();
            let ghost head = r@;
            let mut p: usize = 0;
            while p < parts
                invariant
                    p <= parts,
                    parts == comment_lines_spec(comments@[j as int].comment@).len(),
                    r@ == head + Seq::new(p as nat, |q: int| DiffRow::CommentText { comment: j, part: q as usize }),
                decreases parts - p,
            {
                r.push(DiffRow::CommentText { comment: j, part: p });
                p = p + 1;
                assert(r@ =~= head + Seq::new(p as nat, |q: int| DiffRow::CommentText { comment: j, part: q as usize }));
            }
            r.push(DiffRow::CommentBottom);
            assert(r@ =~= before + line_rows(*diff, comments@, current, focused, i as int, k as int));
        },
        None => {
            assert(r@ =~= before + line_rows(*diff, comments@, current, focused, i as int, k as int));
        },
    }
}

/// The rows of the diff view: each file's header, and under an expanded
/// file its lines, each followed by the box of the comment on it. `current`
/// is the item under the cursor (see `current_diff_item`).
pub fn diff_rows(diff: &DiffState, comments: &[LineComment], current: DiffItem, focused: bool) -> (r: Vec<DiffRow>)
    requires
        diff.wf(),
    ensures
        r@ == files_rows(*diff, comments@, current, focused, diff.files@.len() as int),
{
    let mut r: Vec<DiffRow> = Vec::new();
    let mut i: usize = 0;
    while i < diff.files.len()
        invariant
            diff.wf(),
            i <= diff.files@.len(),
            r@ == files_rows(*diff, comments@, current, focused, i as int),
        decreases diff.files.len() - i,
    {
        let ghost before = r@;
        let highlight = if DiffItem::File(i) == current {
            if focused {
                Highlight::FocusedCursor
            } else {
                Highlight::Cursor
            }
        } else {
            Highlight::Plain
        };
        r.push(
            DiffRow::File {
                highlight,
                file: i,
                expanded: diff.expanded[i],
                comment_count: count_file_comments(comments, diff.files[i].as_str()),
            },
        );
        let ghost with_header = r@;
        if diff.expanded[i] {
            match &diff.file_lines[i] {
                Some(lines) => {
                    let mut k: usize = 0;
                    while k < lines.len()
                        invariant
                            diff.wf(),
                            i < diff.files@.len(),
                            diff.expanded@[i as int],
                            diff.file_lines@[i as int] == Some(*lines),
                            k <= lines@.len(),
                            r@ == with_header + lines_rows(*diff, comments@, current, focused, i as int, k as int),
                        decreases lines.len() - k,
                    {
                        push_line_rows(&mut r, diff, comments, current, focused, i, lines, k);
                        k = k + 1;
                        assert(r@ =~= with_header + lines_rows(*diff, comments@, current, focused, i as int, k as int));
                    }
                },
                None => {},
            }
        }
        i = i + 1;
        assert(r@ =~= files_rows(*diff, comments@, current, focused, i as int));
    }
    r
}

impl DiffRow {
    /// The row's highlight (rows of comment boxes are never highlighted).
    pub open spec fn highlight_of(self) -> Highlight {
        match self {
            DiffRow::File { highlight, .. } => highlight,
            DiffRow::Line { highlight, .. } => highlight,
            _ => Highlight::Plain,
        }
    }

    /// Whether the row is the header of file `i`.
    pub open spec fn is_file_row(self, i: int) -> bool {
        match self {
            DiffRow::File { file, .. } => file == i,
            _ => false,
        }
    }

    /// Whether the row is line `k` of file `i`.
    pub open spec fn is_line_row(self, i: int, k: int) -> bool {
        match self {
            DiffRow::Line { file, line, .. } => file == i && line == k,
            _ => false,
        }
    }
}

/// The lines of a file, when no comment sits on any line: one row per line.
proof fn lemma_lines_rows_plain(diff: DiffState, current: DiffItem, focused: bool, i: int, m: int)
    requires
        diff.wf(),
        0 <= i < diff.files@.len(),
        diff.file_lines@[i] is Some,
        0 <= m <= diff.file_lines@[i]->Some_0@.len(),
    ensures
        lines_rows(diff, Seq::empty(), current, focused, i, m).len() == m,
        forall|k: int|
            0 <= k < m ==> {
                let row = #[trigger] lines_rows(diff, Seq::empty(), current, focused, i, m)[k];
                &&& row.is_line_row(i, k)
                &&& row.highlight_of() == item_highlight(DiffItem::Line(i as usize, k as usize), current, focused)
            },
    decreases m,
{
    assert(diff.files.len() == diff.files@.len());
    assert(diff.file_lines@[i]->Some_0.len() == diff.file_lines@[i]->Some_0@.len());
    if m > 0 {
        lemma_lines_rows_plain(diff, current, focused, i, m - 1);
        let k = m - 1;
        let l: DiffLine = diff.file_lines@[i]->Some_0@[k];
        let number = line_number_spec(l, k as usize);
        assert(first_comment_at(Seq::<LineComment>::empty(), diff.files@[i]@, number) is None);
        let prev = lines_rows(diff, Seq::empty(), current, focused, i, m - 1);
        let r = lines_rows(diff, Seq::empty(), current, focused, i, m);
        let lr = line_rows(diff, Seq::empty(), current, focused, i, k);
        assert(lr.len() == 1);
        assert(r == prev + lr);
        assert(r[k] == lr[0]);
        assert forall|j: int| 0 <= j < m implies {
            let row = #[trigger] r[j];
            &&& row.is_line_row(i, j)
            &&& row.highlight_of() == item_highlight(DiffItem::Line(i as usize, j as usize), current, focused)
        } by {
            if j < m - 1 {
                assert(r[j] == prev[j]);
            }
        }
    }
}

/// The rows of the first `n` files, when no comment sits on any line: the
/// header of file `i` on the row where the cursor list has it, and its line
/// `k` right after, as the cursor list has them.
proof fn lemma_files_rows_plain(diff: DiffState, current: DiffItem, focused: bool, n: int)
    requires
        diff.wf(),
        0 <= n <= diff.files@.len(),
    ensures
        files_rows(diff, Seq::empty(), current, focused, n).len() == group_start(diff.rows(), n),
        forall|i: int|
            0 <= i < n ==> {
                let row = #[trigger] files_rows(diff, Seq::empty(), current, focused, n)[group_start(diff.rows(), i)];
                &&& row.is_file_row(i)
                &&& row.highlight_of() == item_highlight(DiffItem::File(i as usize), current, focused)
            },
        forall|i: int, k: int|
            0 <= i < n && 0 <= k < diff.rows()[i] ==> {
                let row = #[trigger] files_rows(diff, Seq::empty(), current, focused, n)[group_start(diff.rows(), i)
                    + 1 + k];
                &&& row.is_line_row(i, k)
                &&& row.highlight_of() == item_highlight(DiffItem::Line(i as usize, k as usize), current, focused)
            },
    decreases n,
{
    let rows = diff.rows();
    assert(diff.files.len() == diff.files@.len());
    if n > 0 {
        lemma_files_rows_plain(diff, current, focused, n - 1);
        let i = n - 1;
        let prev = files_rows(diff, Seq::empty(), current, focused, i);
        let fr = file_rows(diff, Seq::empty(), current, focused, i);
        if diff.expanded@[i] && diff.file_lines@[i] is Some {
            lemma_lines_rows_plain(diff, current, focused, i, diff.file_lines@[i]->Some_0@.len() as int);
        }
        assert(fr.len() == 1 + rows[i]);
        let r = files_rows(diff, Seq::empty(), current, focused, n);
        assert(r == prev + fr);
        assert forall|j: int| 0 <= j < n implies {
            let row = #[trigger] r[group_start(rows, j)];
            &&& row.is_file_row(j)
            &&& row.highlight_of() == item_highlight(DiffItem::File(j as usize), current, focused)
        } by {
            if j < i {
                lemma_group_start_mono(rows, j, i);
                lemma_group_start_mono(rows, 0, j);
                assert(r[group_start(rows, j)] == prev[group_start(rows, j)]);
            } else {
                assert(r[group_start(rows, j)] == fr[0]);
            }
        }
        assert forall|j: int, k: int| 0 <= j < n && 0 <= k < rows[j] implies {
            let row = #[trigger] r[group_start(rows, j) + 1 + k];
            &&& row.is_line_row(j, k)
            &&& row.highlight_of() == item_highlight(DiffItem::Line(j as usize, k as usize), current, focused)
        } by {
            if j < i {
                lemma_group_start_mono(rows, j, i);
                lemma_group_start_mono(rows, 0, j);
                assert(r[group_start(rows, j) + 1 + k] == prev[group_start(rows, j) + 1 + k]);
            } else {
                assert(r[group_start(rows, j) + 1 + k] == fr[1 + k]);
            }
        }
    }
}

/// Without comments the diff view's rows are the cursor's rows: no row but
/// the one under the cursor is highlighted, and that one shows the item the
/// cursor is on.
pub proof fn law_diff_highlight_at_cursor(diff: DiffState, current: DiffItem, focused: bool)
    requires
        diff.wf(),
        diff.current_item_spec(current),
    ensures
        forall|p: int|
            0 <= p < files_rows(diff, Seq::empty(), current, focused, diff.files@.len() as int).len() && p
                != diff.cursor ==> (#[trigger] files_rows(
                diff,
                Seq::empty(),
                current,
                focused,
                diff.files@.len() as int,
            )[p]).highlight_of() == Highlight::Plain,
        match current {
            DiffItem::File(i) => {
                let row = files_rows(diff, Seq::empty(), current, focused, diff.files@.len() as int)[diff.cursor as int];
                row.is_file_row(i as int) && row.highlight_of() != Highlight::Plain
            },
            DiffItem::Line(i, k) => {
                let row = files_rows(diff, Seq::empty(), current, focused, diff.files@.len() as int)[diff.cursor as int];
                row.is_line_row(i as int, k as int) && row.highlight_of() != Highlight::Plain
            },
            DiffItem::Empty => true,
        },
{
    let n = diff.files@.len() as int;
    let rows = diff.rows();
    lemma_files_rows_plain(diff, current, focused, n);
    let r = files_rows(diff, Seq::empty(), current, focused, n);
    assert(diff.files.len() == diff.files@.len());
    assert forall|p: int| 0 <= p < r.len() && p != diff.cursor implies (#[trigger] r[p]).highlight_of()
        == Highlight::Plain by {
        crate::outline::lemma_row_has_item(rows, p);
        let it = choose|it: OutlineItem| outline_item_spec(rows, p, it);
        match it {
            OutlineItem::Header(i) => {
                assert(r[group_start(rows, i as int)].is_file_row(i as int));
                if DiffItem::File(i) == current {
                    assert(outline_item_spec(rows, diff.cursor as int, OutlineItem::Header(i)));
                }
            },
            OutlineItem::Child(i, k) => {
                assert(r[group_start(rows, i as int) + 1 + k].is_line_row(i as int, k as int));
                if DiffItem::Line(i, k) == current {
                    assert(outline_item_spec(rows, diff.cursor as int, OutlineItem::Child(i, k)));
                }
            },
            OutlineItem::Beyond => {},
        }
    }
    match current {
        DiffItem::File(i) => {
            assert(r[group_start(rows, i as int)].is_file_row(i as int));
        },
        DiffItem::Line(i, k) => {
            assert(r[group_start(rows, i as int) + 1 + k].is_line_row(i as int, k as int));
        },
        DiffItem::Empty => {},
    }
}

/// The worktrees as the flat list shows them (when the tree view is off):
/// the selected worktree is highlighted, and the count is the daemon's, shown
/// when positive.
pub fn worktree_list_rows(repo: &RepoState, focused: bool) -> (r: Vec<TreeRow>)
    ensures
        r@.len() == repo.worktrees@.len(),
        forall|i: int|
            0 <= i < r@.len() ==> {
                let wt = repo.worktrees@[i];
                (#[trigger] r@[i]) matches TreeRow::Worktree { highlight, expanded, is_main, branch, session_count }
                    && highlight == highlight_spec(i, repo.branch_idx as int, focused) && !expanded && is_main
                    == wt.is_main && branch@ == wt.branch@ && session_count == if wt.session_count > 0 {
                    wt.session_count as usize
                } else {
                    0usize
                }
            },
{
    let mut r: Vec<TreeRow> = Vec::new();
    let mut i: usize = 0;
    while i < repo.worktrees.len()
        invariant
            i <= repo.worktrees@.len(),
            r@.len() == i,
            forall|m: int|
                0 <= m < i ==> {
                    let wt = repo.worktrees@[m];
                    (#[trigger] r@[m]) matches TreeRow::Worktree { highlight, expanded, is_main, branch, session_count }
                        && highlight == highlight_spec(m, repo.branch_idx as int, focused) && !expanded && is_main
                        == wt.is_main && branch@ == wt.branch@ && session_count == if wt.session_count > 0 {
                        wt.session_count as usize
                    } else {
                        0usize
                    }
                },
        decreases repo.worktrees.len() - i,
    {
        let wt = &repo.worktrees[i];
        let count: usize = if wt.session_count > 0 {
            wt.session_count as usize
        } else {
            0
        };
        r.push(
            TreeRow::Worktree {
                highlight: highlight(i, repo.branch_idx, focused),
                expanded: false,
                is_main: wt.is_main,
                branch: wt.branch.clone(),
                session_count: count,
            },
        );
        i = i + 1;
    }
    r
}

/// The sessions of the selected worktree as the flat list shows them (when
/// the tree view is off): the selected session is highlighted; `attached` is
/// the id of the session the terminal is attached to.
pub fn session_list_rows(repo: &RepoState, focused: bool, attached: &Option<String>) -> (r: Vec<TreeRow>)
    ensures
        r@.len() == repo.sessions@.len(),
        forall|i: int|
            0 <= i < r@.len() ==> {
                let s = repo.sessions@[i];
                (#[trigger] r@[i]) matches TreeRow::Session { highlight, attached: on, running, name }
                    && highlight == highlight_spec(i, repo.session_idx as int, focused) && on == (opt_str(*attached)
                    == Some(s.id@)) && running == (s.status == 1) && name@ == s.name@
            },
{
    let mut r: Vec<TreeRow> = Vec::new();
    let mut i: usize = 0;
    while i < repo.sessions.len()
        invariant
            i <= repo.sessions@.len(),
            r@.len() == i,
            forall|m: int|
                0 <= m < i ==> {
                    let s = repo.sessions@[m];
                    (#[trigger] r@[m]) matches TreeRow::Session { highlight, attached: on, running, name }
                        && highlight == highlight_spec(m, repo.session_idx as int, focused) && on == (opt_str(
                        *attached,
                    ) == Some(s.id@)) && running == (s.status == 1) && name@ == s.name@
                },
        decreases repo.sessions.len() - i,
    {
        let s = &repo.sessions[i];
        let on = match attached {
            Some(a) => crate::text::str_eq(a.as_str(), s.id.as_str()),
            None => false,
        };
        r.push(
            TreeRow::Session {
                highlight: highlight(i, repo.session_idx, focused),
                attached: on,
                running: s.status == 1,
                name: s.name.clone(),
            },
        );
        i = i + 1;
    }
    r
}

/// The title of the flat session list: the selected worktree's branch
/// ("?" when none is selected), marked when the list has the focus.
pub open spec fn sessions_title_spec(repo: RepoState, focused: bool) -> Seq<char> {
    let branch = if repo.branch_idx < repo.worktrees@.len() {
        repo.worktrees@[repo.branch_idx as int].branch@
    } else {
        "?"@
    };
    " Sessions ("@ + branch + if focused {
        ") [*] "@
    } else {
        ") "@
    }
}

/// The title of the flat session list.
pub fn sessions_title(repo: &RepoState, focused: bool) -> (r: String)
    ensures
        r@ == sessions_title_spec(*repo, focused),
{
    proof {
        reveal_strlit("?");
        reveal_strlit(" Sessions (");
        reveal_strlit(") [*] ");
        reveal_strlit(") ");
    }
    let branch = if repo.branch_idx < repo.worktrees.len() {
        repo.worktrees[repo.branch_idx].branch.as_str()
    } else {
        "?"
    };
    let head = concat(" Sessions (", branch);
    let r = concat(head.as_str(), if focused {
        ") [*] "
    } else {
        ") "
    });
    assert(r@ =~= sessions_title_spec(*repo, focused));
    r
}

/// The first row shown of a list of `total` rows in a window of `height`
/// rows: kept while the cursor stays in view, moved to the cursor when it
/// went above, centred on it when it went below, and never past the point
/// where the last row reaches the bottom.
pub open spec fn scroll_spec(cursor: int, offset: int, height: int, total: int) -> int {
    let wanted = if cursor < offset {
        cursor
    } else if cursor >= offset + height {
        if cursor >= height / 2 {
            cursor - height / 2
        } else {
            0
        }
    } else {
        offset
    };
    let last = if total >= height {
        total - height
    } else {
        0
    };
    if wanted <= last {
        wanted
    } else {
        last
    }
}

/// The first row to show so that the cursor stays in view.
pub fn keep_cursor_visible(cursor: usize, offset: usize, height: usize, total: usize) -> (r: usize)
    ensures
        r == scroll_spec(cursor as int, offset as int, height as int, total as int),
{
    let wanted = if cursor < offset {
        cursor
    } else if cursor - offset >= height {
        cursor - height / 2
    } else {
        offset
    };
    let last = if total >= height {
        total - height
    } else {
        0
    };
    if wanted <= last {
        wanted
    } else {
        last
    }
}

/// The cursor's row is on screen: whatever the previous first row, a cursor
/// on one of the rows lies in the window that starts at the computed row.
pub proof fn law_cursor_stays_visible(cursor: int, offset: int, height: int, total: int)
    requires
        0 <= cursor < total,
        0 <= offset,
        0 < height,
    ensures
        0 <= scroll_spec(cursor, offset, height, total) <= cursor,
        cursor < scroll_spec(cursor, offset, height, total) + height,
{
}

} // verus!
