//! The git status panel: the changed files grouped into staged, unstaged and
//! untracked sections. A section with no file is not shown; a shown section is
//! a header row followed, when expanded, by one row per file, in file order.

use vstd::prelude::*;
use crate::outline::{OutlineItem, outline_item, outline_item_spec, law_outline_rows_are_unique, outline_total, row_down, row_up, total_rows};
use crate::keys::{KeyCode, KeyEvent};
use crate::state::{AsyncAction, Focus, GitPanelItem, GitSection, GitSectionSet, GitStatusFile, RightPanelView};
use crate::text::concat;
use crate::ui_state::{UiCommand, UiState, UiView};

verus! {

/// The sections in display order.
pub open spec fn section_order() -> Seq<GitSection> {
    seq![GitSection::Staged, GitSection::Unstaged, GitSection::Untracked]
}

/// The positions of the files of the section, in file order.
pub open spec fn section_files(files: Seq<GitStatusFile>, section: GitSection) -> Seq<int>
    decreases files.len(),
{
    if files.len() == 0 {
        seq![]
    } else {
        let earlier = section_files(files.drop_last(), section);
        if files.last().section == section {
            earlier.push(files.len() - 1)
        } else {
            earlier
        }
    }
}

/// The sections that have files, in display order.
pub open spec fn shown_sections(files: Seq<GitStatusFile>) -> Seq<GitSection> {
    section_order().filter(|s: GitSection| section_files(files, s).len() > 0)
}

/// Rows under each shown section: its files when expanded, else none.
pub open spec fn panel_rows(files: Seq<GitStatusFile>, expanded: Set<GitSection>) -> Seq<usize> {
    shown_sections(files).map_values(
        |s: GitSection|
            if expanded.contains(s) {
                section_files(files, s).len() as usize
            } else {
                0usize
            },
    )
}

/// Whether `r` is what the panel shows at row `cursor`.
pub open spec fn panel_item_spec(
    files: Seq<GitStatusFile>,
    expanded: Set<GitSection>,
    cursor: int,
    r: GitPanelItem,
) -> bool {
    let rows = panel_rows(files, expanded);
    let shown = shown_sections(files);
    match r {
        GitPanelItem::Section(s) => exists|i: usize|
            #![trigger outline_item_spec(rows, cursor, OutlineItem::Header(i))]
            outline_item_spec(rows, cursor, OutlineItem::Header(i)) && shown[i as int] == s,
        GitPanelItem::File(f) => exists|i: usize, k: usize|
            #![trigger outline_item_spec(rows, cursor, OutlineItem::Child(i, k))]
            outline_item_spec(rows, cursor, OutlineItem::Child(i, k))
                && section_files(files, shown[i as int])[k as int] == f,
        GitPanelItem::Empty => outline_item_spec(rows, cursor, OutlineItem::Beyond),
    }
}

/// The git status of the selected worktree as the panel shows it.
#[derive(Debug)]
pub struct GitPanel {
    pub files: Vec<GitStatusFile>,
    pub expanded_sections: GitSectionSet,
    /// Cursor row in the panel
    pub cursor: usize,
    /// The file whose diff to open once the diff view has loaded
    pub pending_diff_file: Option<String>,
}

pub(crate) proof fn lemma_section_files_bounds(files: Seq<GitStatusFile>, section: GitSection)
    ensures
        section_files(files, section).len() <= files.len(),
        forall|k: int|
            0 <= k < section_files(files, section).len() ==> {
                let j = #[trigger] section_files(files, section)[k];
                0 <= j < files.len() && files[j].section == section
            },
    decreases files.len(),
{
    if files.len() > 0 {
        lemma_section_files_bounds(files.drop_last(), section);
        let p = files.drop_last();
        assert forall|k: int| 0 <= k < section_files(p, section).len() implies {
            let j = #[trigger] section_files(p, section)[k];
            files[j] == p[j]
        } by {}
    }
}

/// The files of the section, by position.
fn collect_section(files: &Vec<GitStatusFile>, section: GitSection) -> (r: Vec<usize>)
    ensures
        r@.map_values(|j: usize| j as int) == section_files(files@, section),
{
    let mut r: Vec<usize> = Vec::new();
    let mut j: usize = 0;
    while j < files.len()
        invariant
            j <= files@.len(),
            r@.map_values(|x: usize| x as int) == section_files(files@.take(j as int), section),
        decreases files.len() - j,
    {
        assert(files@.take(j + 1).drop_last() =~= files@.take(j as int));
        if files[j].section == section {
            r.push(j);
        }
        j = j + 1;
        assert(r@.map_values(|x: usize| x as int) =~= section_files(files@.take(j as int), section));
    }
    assert(files@.take(j as int) =~= files@);
    r
}

impl GitPanel {
    /// The file lists of the shown sections, in display order.
    pub(crate) fn shown_lists(&self) -> (r: (Vec<GitSection>, Vec<Vec<usize>>))
        ensures
            r.0@ == shown_sections(self.files@),
            r.1@.len() == r.0@.len(),
            forall|i: int|
                0 <= i < r.1@.len() ==> (#[trigger] r.1@[i])@.map_values(|j: usize| j as int)
                    == section_files(self.files@, r.0@[i]),
    {
        let mut sections: Vec<GitSection> = Vec::new();
        let mut lists: Vec<Vec<usize>> = Vec::new();
        let order = [GitSection::Staged, GitSection::Unstaged, GitSection::Untracked];
        let ghost pred = |s: GitSection| section_files(self.files@, s).len() > 0;
        let mut n: usize = 0;
        while n < 3
            invariant
                n <= 3,
                order@ == section_order(),
                sections@ == section_order().take(n as int).filter(pred),
                lists@.len() == sections@.len(),
                forall|i: int|
                    0 <= i < lists@.len() ==> (#[trigger] lists@[i])@.map_values(|j: usize| j as int)
                        == section_files(self.files@, sections@[i]),
                pred == (|s: GitSection| section_files(self.files@, s).len() > 0),
            decreases 3 - n,
        {
            let section = order[n];
            let list = collect_section(&self.files, section);
            proof {
                reveal(Seq::filter);
                assert(section_order().take(n + 1).drop_last() =~= section_order().take(n as int));
                assert(section_order().take(n + 1).last() == section);
            }
            if list.len() > 0 {
                assert(list@.map_values(|j: usize| j as int).len() == list@.len());
                sections.push(section);
                lists.push(list);
            } else {
                assert(list@.map_values(|j: usize| j as int).len() == list@.len());
            }
            n = n + 1;
        }
        assert(section_order().take(3) =~= section_order());
        (sections, lists)
    }

    /// The rows under each shown section.
    fn rows_exec(&self) -> (r: Vec<usize>)
        ensures
            r@ == panel_rows(self.files@, self.expanded_sections@),
    {
        let (sections, lists) = self.shown_lists();
        let mut rows: Vec<usize> = Vec::new();
        let mut i: usize = 0;
        while i < sections.len()
            invariant
                i <= sections@.len(),
                sections@ == shown_sections(self.files@),
                lists@.len() == sections@.len(),
                forall|m: int|
                    0 <= m < lists@.len() ==> (#[trigger] lists@[m])@.map_values(|j: usize| j as int)
                        == section_files(self.files@, sections@[m]),
                rows@ == panel_rows(self.files@, self.expanded_sections@).take(i as int),
            decreases sections.len() - i,
        {
            let n = if self.expanded_sections.contains(sections[i]) {
                lists[i].len()
            } else {
                0
            };
            assert(lists@[i as int]@.map_values(|j: usize| j as int).len() == lists@[i as int]@.len());
            rows.push(n);
            i = i + 1;
            assert(rows@ =~= panel_rows(self.files@, self.expanded_sections@).take(i as int));
        }
        assert(rows@ =~= panel_rows(self.files@, self.expanded_sections@));
        rows
    }

    /// Move the cursor one row up; whether it moved.
    pub fn move_up(&mut self) -> (r: bool)
        ensures
            final(self).files == old(self).files,
            final(self).expanded_sections == old(self).expanded_sections,
            final(self).pending_diff_file == old(self).pending_diff_file,
            match row_up(old(self).cursor) {
                Some(c) => r && final(self).cursor == c,
                None => !r && final(self).cursor == old(self).cursor,
            },
    {
        if self.cursor > 0 {
            self.cursor = self.cursor - 1;
            true
        } else {
            false
        }
    }

    /// Move the cursor one row down, when a row lies below it; whether it moved.
    pub fn move_down(&mut self) -> (r: bool)
        requires
            outline_total(panel_rows(old(self).files@, old(self).expanded_sections@)) <= usize::MAX,
        ensures
            final(self).files == old(self).files,
            final(self).expanded_sections == old(self).expanded_sections,
            final(self).pending_diff_file == old(self).pending_diff_file,
            match row_down(old(self).cursor, outline_total(panel_rows(old(self).files@, old(self).expanded_sections@))) {
                Some(c) => r && final(self).cursor == c,
                None => !r && final(self).cursor == old(self).cursor,
            },
    {
        let rows = self.rows_exec();
        let total = total_rows(rows.as_slice());
        if self.cursor < total && total - self.cursor > 1 {
            self.cursor = self.cursor + 1;
            true
        } else {
            false
        }
    }

    /// The item under the cursor: a section header, a file, or nothing.
    pub fn current_git_panel_item(&self) -> (r: GitPanelItem)
        ensures
            panel_item_spec(self.files@, self.expanded_sections@, self.cursor as int, r),
            r matches GitPanelItem::File(f) ==> f < self.files@.len(),
    {
        let (sections, lists) = self.shown_lists();
        let rows = self.rows_exec();
        let ghost prows = panel_rows(self.files@, self.expanded_sections@);
        match outline_item(rows.as_slice(), self.cursor) {
            OutlineItem::Header(g) => {
                assert(outline_item_spec(prows, self.cursor as int, OutlineItem::Header(g)));
                GitPanelItem::Section(sections[g])
            },
            OutlineItem::Child(g, k) => {
                proof {
                    assert(lists@[g as int]@.map_values(|j: usize| j as int)[k as int] == lists@[g as int]@[k as int] as int);
                    lemma_section_files_bounds(self.files@, sections@[g as int]);
                    assert(outline_item_spec(prows, self.cursor as int, OutlineItem::Child(g, k)));
                }
                GitPanelItem::File(lists[g][k])
            },
            OutlineItem::Beyond => GitPanelItem::Empty,
        }
    }

    /// The section under the cursor, if the cursor is on a section header.
    pub open spec fn cursor_section(&self) -> Option<GitSection> {
        if exists|s: GitSection|
            #[trigger] panel_item_spec(
                self.files@,
                self.expanded_sections@,
                self.cursor as int,
                GitPanelItem::Section(s),
            ) {
            Some(
                choose|s: GitSection|
                    #[trigger] panel_item_spec(
                        self.files@,
                        self.expanded_sections@,
                        self.cursor as int,
                        GitPanelItem::Section(s),
                    ),
            )
        } else {
            None
        }
    }

    /// The expanded sections after toggling the one under the cursor.
    pub open spec fn toggled_sections(&self) -> Set<GitSection> {
        match self.cursor_section() {
            Some(s) => if self.expanded_sections@.contains(s) {
                self.expanded_sections@.remove(s)
            } else {
                self.expanded_sections@.insert(s)
            },
            None => self.expanded_sections@,
        }
    }

    /// Expand or collapse the section under the cursor; whether one changed.
    pub fn toggle_git_section_expand(&mut self) -> (r: bool)
        ensures
            final(self).files == old(self).files,
            final(self).cursor == old(self).cursor,
            final(self).pending_diff_file == old(self).pending_diff_file,
            r == old(self).cursor_section() is Some,
            final(self).expanded_sections@ == old(self).toggled_sections(),
    {
        let item = self.current_git_panel_item();
        proof {
            self.lemma_item_unique(item);
            if let GitPanelItem::Section(sec) = item {
                assert(panel_item_spec(self.files@, self.expanded_sections@, self.cursor as int, GitPanelItem::Section(sec)));
            }
        }
        if let GitPanelItem::Section(section) = item {
            if self.expanded_sections.contains(section) {
                self.expanded_sections.remove(section);
            } else {
                self.expanded_sections.insert(section);
            }
            true
        } else {
            false
        }
    }

    /// Only one item is under the cursor.
    proof fn lemma_item_unique(&self, item: GitPanelItem)
        requires
            panel_item_spec(self.files@, self.expanded_sections@, self.cursor as int, item),
        ensures
            forall|s: GitSection|
                #[trigger] panel_item_spec(
                    self.files@,
                    self.expanded_sections@,
                    self.cursor as int,
                    GitPanelItem::Section(s),
                ) ==> item == GitPanelItem::Section(s),
    {
        let rows = panel_rows(self.files@, self.expanded_sections@);
        let c = self.cursor as int;
        assert forall|s: GitSection|
            #[trigger] panel_item_spec(self.files@, self.expanded_sections@, c, GitPanelItem::Section(s))
            implies item == GitPanelItem::Section(s) by {
            let i = choose|i: usize|
                #![trigger outline_item_spec(rows, c, OutlineItem::Header(i))]
                outline_item_spec(rows, c, OutlineItem::Header(i)) && shown_sections(self.files@)[i as int] == s;
            match item {
                GitPanelItem::Section(t) => {
                    let i2 = choose|i2: usize|
                        #![trigger outline_item_spec(rows, c, OutlineItem::Header(i2))]
                        outline_item_spec(rows, c, OutlineItem::Header(i2)) && shown_sections(self.files@)[i2 as int] == t;
                    law_outline_rows_are_unique(rows, c, OutlineItem::Header(i), OutlineItem::Header(i2));
                },
                GitPanelItem::File(f) => {
                    let (i2, k2) = choose|i2: usize, k2: usize|
                        #![trigger outline_item_spec(rows, c, OutlineItem::Child(i2, k2))]
                        outline_item_spec(rows, c, OutlineItem::Child(i2, k2))
                            && section_files(self.files@, shown_sections(self.files@)[i2 as int])[k2 as int] == f;
                    law_outline_rows_are_unique(rows, c, OutlineItem::Header(i), OutlineItem::Child(i2, k2));
                },
                GitPanelItem::Empty => {
                    law_outline_rows_are_unique(rows, c, OutlineItem::Header(i), OutlineItem::Beyond);
                },
            }
        }
    }

    /// The file under the cursor, if the cursor is on one.
    pub open spec fn cursor_file(&self) -> Option<int> {
        if exists|f: usize|
            #[trigger] panel_item_spec(
                self.files@,
                self.expanded_sections@,
                self.cursor as int,
                GitPanelItem::File(f),
            ) && f < self.files@.len() {
            Some(
                (choose|f: usize|
                    #[trigger] panel_item_spec(
                        self.files@,
                        self.expanded_sections@,
                        self.cursor as int,
                        GitPanelItem::File(f),
                    ) && f < self.files@.len()) as int,
            )
        } else {
            None
        }
    }

    /// The path of the file under the cursor.
    pub open spec fn cursor_path(&self) -> Option<Seq<char>> {
        match self.cursor_file() {
            Some(f) => Some(self.files@[f].path@),
            None => None,
        }
    }

    /// Whether the item under the cursor is staged: a staged file or the
    /// staged section's header.
    pub open spec fn cursor_staged(&self) -> bool {
        match self.cursor_file() {
            Some(f) => self.files@[f].section == GitSection::Staged,
            None => panel_item_spec(
                self.files@,
                self.expanded_sections@,
                self.cursor as int,
                GitPanelItem::Section(GitSection::Staged),
            ),
        }
    }

    /// The item under the cursor decides `cursor_file`.
    proof fn lemma_cursor_file(&self, item: GitPanelItem)
        requires
            panel_item_spec(self.files@, self.expanded_sections@, self.cursor as int, item),
            item matches GitPanelItem::File(f) ==> f < self.files@.len(),
        ensures
            self.cursor_file() == match item {
                GitPanelItem::File(f) => Some(f as int),
                _ => None,
            },
    {
        self.lemma_file_unique(item);
        if let GitPanelItem::File(f) = item {
            assert(panel_item_spec(self.files@, self.expanded_sections@, self.cursor as int, GitPanelItem::File(f)));
        }
    }

    /// The path of the file under the cursor, if the cursor is on a file.
    pub fn current_git_file_path(&self) -> (r: Option<String>)
        ensures
            match r {
                Some(p) => self.cursor_path() == Some(p@),
                None => self.cursor_path() is None,
            },
    {
        let item = self.current_git_panel_item();
        proof {
            self.lemma_cursor_file(item);
        }
        if let GitPanelItem::File(idx) = item {
            Some(self.files[idx].path.clone())
        } else {
            None
        }
    }

    /// Whether the item under the cursor is staged: a staged file or the
    /// staged section's header.
    pub fn is_current_git_item_staged(&self) -> (r: bool)
        ensures
            r == self.cursor_staged(),
    {
        let item = self.current_git_panel_item();
        proof {
            self.lemma_cursor_file(item);
            self.lemma_item_unique(item);
        }
        match item {
            GitPanelItem::File(idx) => self.files[idx].section == GitSection::Staged,
            GitPanelItem::Section(section) => section == GitSection::Staged,
            GitPanelItem::Empty => {
                proof {
                    if panel_item_spec(
                        self.files@,
                        self.expanded_sections@,
                        self.cursor as int,
                        GitPanelItem::Section(GitSection::Staged),
                    ) {
                        assert(item == GitPanelItem::Section(GitSection::Staged));
                    }
                }
                false
            },
        }
    }

    /// Only one file is under the cursor.
    proof fn lemma_file_unique(&self, item: GitPanelItem)
        requires
            panel_item_spec(self.files@, self.expanded_sections@, self.cursor as int, item),
        ensures
            forall|f: usize|
                #[trigger] panel_item_spec(
                    self.files@,
                    self.expanded_sections@,
                    self.cursor as int,
                    GitPanelItem::File(f),
                ) ==> item == GitPanelItem::File(f),
    {
        let rows = panel_rows(self.files@, self.expanded_sections@);
        let c = self.cursor as int;
        let shown = shown_sections(self.files@);
        assert forall|f: usize|
            #[trigger] panel_item_spec(self.files@, self.expanded_sections@, c, GitPanelItem::File(f))
            implies item == GitPanelItem::File(f) by {
            let (i, k) = choose|i: usize, k: usize|
                #![trigger outline_item_spec(rows, c, OutlineItem::Child(i, k))]
                outline_item_spec(rows, c, OutlineItem::Child(i, k))
                    && section_files(self.files@, shown[i as int])[k as int] == f;
            match item {
                GitPanelItem::Section(t) => {
                    let i2 = choose|i2: usize|
                        #![trigger outline_item_spec(rows, c, OutlineItem::Header(i2))]
                        outline_item_spec(rows, c, OutlineItem::Header(i2)) && shown[i2 as int] == t;
                    law_outline_rows_are_unique(rows, c, OutlineItem::Child(i, k), OutlineItem::Header(i2));
                },
                GitPanelItem::File(f2) => {
                    let (i2, k2) = choose|i2: usize, k2: usize|
                        #![trigger outline_item_spec(rows, c, OutlineItem::Child(i2, k2))]
                        outline_item_spec(rows, c, OutlineItem::Child(i2, k2))
                            && section_files(self.files@, shown[i2 as int])[k2 as int] == f2;
                    law_outline_rows_are_unique(rows, c, OutlineItem::Child(i, k), OutlineItem::Child(i2, k2));
                },
                GitPanelItem::Empty => {
                    law_outline_rows_are_unique(rows, c, OutlineItem::Child(i, k), OutlineItem::Beyond);
                },
            }
        }
    }
}

impl GitPanel {
    /// Handle a key in the git status panel: move, open the diff of the file
    /// under the cursor (or fold its section), stage or unstage, refresh, pull
    /// or push, go to the diff view, or back to the sidebar.
    pub fn handle_git_status_key(&mut self, ui: &mut UiState, key: &KeyEvent) -> (r: UiCommand)
        requires
            old(ui).wf(),
        ensures
            final(ui).wf(),
            final(self).files == old(self).files,
            final(self).cursor == old(self).cursor,
            match key.code {
                KeyCode::Up | KeyCode::Char('k') => r is SelectPrev && *final(self) == *old(self)
                    && final(ui)@ == old(ui)@,
                KeyCode::Down | KeyCode::Char('j') => r is SelectNext && *final(self) == *old(self)
                    && final(ui)@ == old(ui)@,
                KeyCode::Enter | KeyCode::Char('o') => match old(self).cursor_path() {
                    Some(p) => {
                        &&& r matches UiCommand::Run(AsyncAction::LoadDiffFiles)
                        &&& final(ui)@ == (UiView {
                            status_message: Some("Opening diff for: "@ + p),
                            right_panel_view: RightPanelView::Diff,
                            focus: Focus::DiffFiles,
                            ..old(ui)@
                        })
                        &&& final(self).pending_diff_file matches Some(f) && f@ == p
                        &&& final(self).expanded_sections == old(self).expanded_sections
                    },
                    None => {
                        &&& r is Nothing
                        &&& final(ui)@ == old(ui)@
                        &&& final(self).expanded_sections@ == old(self).toggled_sections()
                        &&& final(self).pending_diff_file == old(self).pending_diff_file
                    },
                },
                KeyCode::Char('s') => *final(self) == *old(self) && final(ui)@ == old(ui)@ && match old(
                    self,
                ).cursor_path() {
                    Some(p) => if !old(self).cursor_staged() {
                        r matches UiCommand::Run(AsyncAction::StageFile { file_path }) && file_path@ == p
                    } else {
                        r is Nothing
                    },
                    None => r is Nothing,
                },
                KeyCode::Char('u') => *final(self) == *old(self) && final(ui)@ == old(ui)@ && match old(
                    self,
                ).cursor_path() {
                    Some(p) => if old(self).cursor_staged() {
                        r matches UiCommand::Run(AsyncAction::UnstageFile { file_path }) && file_path@ == p
                    } else {
                        r is Nothing
                    },
                    None => r is Nothing,
                },
                KeyCode::Char('S') => r matches UiCommand::Run(AsyncAction::StageAll) && *final(self)
                    == *old(self) && final(ui)@ == old(ui)@,
                KeyCode::Char('U') => r matches UiCommand::Run(AsyncAction::UnstageAll) && *final(self)
                    == *old(self) && final(ui)@ == old(ui)@,
                KeyCode::Char('r') => r matches UiCommand::Run(AsyncAction::LoadGitStatus) && *final(self)
                    == *old(self) && final(ui)@ == old(ui)@,
                KeyCode::Char('p') => r matches UiCommand::Run(AsyncAction::GitPull) && *final(self) == *old(self)
                    && final(ui)@ == old(ui)@,
                KeyCode::Char('P') => r matches UiCommand::Run(AsyncAction::GitPush) && *final(self) == *old(self)
                    && final(ui)@ == old(ui)@,
                KeyCode::Tab => {
                    &&& r matches UiCommand::Run(AsyncAction::LoadDiffFiles)
                    &&& final(self).expanded_sections == old(self).expanded_sections
                    &&& match old(self).cursor_path() {
                        Some(p) => {
                            &&& final(ui)@ == (UiView {
                                status_message: Some("Opening diff for: "@ + p),
                                right_panel_view: RightPanelView::Diff,
                                focus: Focus::DiffFiles,
                                ..old(ui)@
                            })
                            &&& final(self).pending_diff_file matches Some(f) && f@ == p
                        },
                        None => {
                            &&& final(ui)@ == (UiView {
                                status_message: Some("Switching to Diff panel"@),
                                right_panel_view: RightPanelView::Diff,
                                focus: Focus::DiffFiles,
                                ..old(ui)@
                            })
                            &&& final(self).pending_diff_file == old(self).pending_diff_file
                        },
                    }
                },
                KeyCode::Esc | KeyCode::Char('q') => r is Nothing && *final(self) == *old(self)
                    && final(ui)@ == (UiView { focus: Focus::Sidebar, ..old(ui)@ }),
                _ => r is Nothing && *final(self) == *old(self) && final(ui)@ == old(ui)@,
            },
    {
        match key.code {
            KeyCode::Up | KeyCode::Char('k') => UiCommand::SelectPrev,
            KeyCode::Down | KeyCode::Char('j') => UiCommand::SelectNext,
            KeyCode::Enter | KeyCode::Char('o') => {
                match self.current_git_file_path() {
                    Some(path) => {
                        self.open_diff_for(ui, path);
                        UiCommand::Run(AsyncAction::LoadDiffFiles)
                    },
                    None => {
                        self.toggle_git_section_expand();
                        UiCommand::Nothing
                    },
                }
            },
            KeyCode::Char('s') => match self.current_git_file_path() {
                Some(file_path) => if !self.is_current_git_item_staged() {
                    UiCommand::Run(AsyncAction::StageFile { file_path })
                } else {
                    UiCommand::Nothing
                },
                None => UiCommand::Nothing,
            },
            KeyCode::Char('u') => match self.current_git_file_path() {
                Some(file_path) => if self.is_current_git_item_staged() {
                    UiCommand::Run(AsyncAction::UnstageFile { file_path })
                } else {
                    UiCommand::Nothing
                },
                None => UiCommand::Nothing,
            },
            KeyCode::Char('S') => UiCommand::Run(AsyncAction::StageAll),
            KeyCode::Char('U') => UiCommand::Run(AsyncAction::UnstageAll),
            KeyCode::Char('r') => UiCommand::Run(AsyncAction::LoadGitStatus),
            KeyCode::Char('p') => UiCommand::Run(AsyncAction::GitPull),
            KeyCode::Char('P') => UiCommand::Run(AsyncAction::GitPush),
            KeyCode::Tab => {
                match self.current_git_file_path() {
                    Some(path) => self.open_diff_for(ui, path),
                    None => {
                        ui.status_message = Some("Switching to Diff panel".to_owned());
                        ui.right_panel_view = RightPanelView::Diff;
                        ui.focus = Focus::DiffFiles;
                    },
                }
                UiCommand::Run(AsyncAction::LoadDiffFiles)
            },
            KeyCode::Esc | KeyCode::Char('q') => {
                ui.focus = Focus::Sidebar;
                UiCommand::Nothing
            },
            _ => UiCommand::Nothing,
        }
    }

    /// Switch to the diff view to open the file's diff once it has loaded.
    fn open_diff_for(&mut self, ui: &mut UiState, path: String)
        requires
            old(ui).wf(),
        ensures
            final(ui).wf(),
            final(ui)@ == (UiView {
                status_message: Some("Opening diff for: "@ + path@),
                right_panel_view: RightPanelView::Diff,
                focus: Focus::DiffFiles,
                ..old(ui)@
            }),
            final(self).pending_diff_file == Some(path),
            final(self).files == old(self).files,
            final(self).cursor == old(self).cursor,
            final(self).expanded_sections == old(self).expanded_sections,
    {
        ui.status_message = Some(concat("Opening diff for: ", path.as_str()));
        ui.right_panel_view = RightPanelView::Diff;
        ui.focus = Focus::DiffFiles;
        self.pending_diff_file = Some(path);
    }
}

/// A changed file as the daemon reports it: its path and status code.
#[derive(Debug)]
pub struct ReportedFile {
    pub path: String,
    pub status: i32,
}

/// The reported files of one section as panel files.
pub open spec fn tagged(files: Seq<ReportedFile>, section: GitSection) -> Seq<(Seq<char>, i32, GitSection)> {
    files.map_values(|f: ReportedFile| (f.path@, f.status, section))
}

/// A panel file as values.
pub open spec fn file_view(f: GitStatusFile) -> (Seq<char>, i32, GitSection) {
    (f.path@, f.status, f.section)
}

impl GitPanel {
    /// Take a new git status: the staged, then the unstaged, then the
    /// untracked files, with the cursor back at the top.
    pub fn set_status(&mut self, staged: Vec<ReportedFile>, unstaged: Vec<ReportedFile>, untracked: Vec<ReportedFile>)
        ensures
            final(self).files@.map_values(|f: GitStatusFile| file_view(f)) == tagged(staged@, GitSection::Staged)
                + tagged(unstaged@, GitSection::Unstaged) + tagged(untracked@, GitSection::Untracked),
            final(self).cursor == 0,
            final(self).expanded_sections == old(self).expanded_sections,
            final(self).pending_diff_file == old(self).pending_diff_file,
    {
        let mut files: Vec<GitStatusFile> = Vec::new();
        push_tagged(&mut files, staged, GitSection::Staged);
        push_tagged(&mut files, unstaged, GitSection::Unstaged);
        push_tagged(&mut files, untracked, GitSection::Untracked);
        self.files = files;
        self.cursor = 0;
    }
}

/// Append the reported files, tagged with their section.
fn push_tagged(files: &mut Vec<GitStatusFile>, reported: Vec<ReportedFile>, section: GitSection)
    ensures
        final(files)@.map_values(|f: GitStatusFile| file_view(f)) == old(files)@.map_values(
            |f: GitStatusFile| file_view(f),
        ) + tagged(reported@, section),
{
    let ghost start = files@.map_values(|f: GitStatusFile| file_view(f));
    let ghost all = reported@;
    let mut rest = reported;
    let mut taken: usize = 0;
    let n = rest.len();
    while rest.len() > 0
        invariant
            n == all.len(),
            taken <= n,
            rest@ == all.skip(taken as int),
            rest@.len() == n - taken,
            files@.map_values(|f: GitStatusFile| file_view(f)) == start + tagged(all.take(taken as int), section),
        decreases rest@.len(),
    {
        let f = rest.remove(0);
        assert(f == all[taken as int]);
        let ghost before = files@;
        files.push(GitStatusFile { path: f.path, status: f.status, section });
        assert(files@.map_values(|g: GitStatusFile| file_view(g)) =~= before.map_values(
            |g: GitStatusFile| file_view(g),
        ).push(file_view(files@.last())));
        assert(all.take(taken + 1) =~= all.take(taken as int).push(all[taken as int]));
        assert(tagged(all.take(taken + 1), section) =~= tagged(all.take(taken as int), section).push(
            (all[taken as int].path@, all[taken as int].status, section),
        ));
        taken = taken + 1;
        assert(rest@ =~= all.skip(taken as int));
    }
    assert(all.take(taken as int) =~= all);
}

/// The shown sections are distinct.
proof fn lemma_shown_distinct(files: Seq<GitStatusFile>)
    ensures
        forall|a: int, b: int|
            0 <= a < b < shown_sections(files).len() ==> shown_sections(files)[a] != shown_sections(
                files,
            )[b],
        shown_sections(files).len() <= 3,
{
    reveal_with_fuel(Seq::filter, 4);
    let o = section_order();
    let p = |s: GitSection| section_files(files, s).len() > 0;
    assert(o.drop_last().drop_last().drop_last() =~= Seq::<GitSection>::empty());
    assert(o.drop_last().drop_last() =~= seq![GitSection::Staged]);
    assert(o.drop_last() =~= seq![GitSection::Staged, GitSection::Unstaged]);
    let f1 = o.drop_last().drop_last().filter(p);
    let f2 = o.drop_last().filter(p);
    let f3 = o.filter(p);
    assert(f3 == shown_sections(files));
    assert(forall|a: int, b: int| 0 <= a < b < f1.len() ==> f1[a] != f1[b]);
    assert(forall|a: int, b: int| 0 <= a < b < f2.len() ==> f2[a] != f2[b]);
}

/// Folding or unfolding the section under the cursor twice gives back the
/// sections as they were: the header stays under the cursor.
pub proof fn law_toggle_section_twice(before: GitPanel, after: GitPanel)
    requires
        after.files == before.files,
        after.cursor == before.cursor,
        after.expanded_sections@ == before.toggled_sections(),
    ensures
        after.toggled_sections() == before.expanded_sections@,
{
    if let Some(s) = before.cursor_section() {
        let files = before.files@;
        let c = before.cursor as int;
        let shown = shown_sections(files);
        let rows0 = panel_rows(files, before.expanded_sections@);
        let rows1 = panel_rows(files, after.expanded_sections@);
        assert(panel_item_spec(files, before.expanded_sections@, c, GitPanelItem::Section(s)));
        let i = choose|i: usize|
            #![trigger outline_item_spec(rows0, c, OutlineItem::Header(i))]
            outline_item_spec(rows0, c, OutlineItem::Header(i)) && shown[i as int] == s;
        lemma_shown_distinct(files);
        assert forall|k: int| 0 <= k < i implies rows0[k] == rows1[k] by {
            assert(shown[k] != s);
        }
        crate::outline::lemma_group_start_prefix(rows0, rows1, i as int);
        assert(outline_item_spec(rows1, c, OutlineItem::Header(i)));
        assert(panel_item_spec(files, after.expanded_sections@, c, GitPanelItem::Section(s)));
        after.lemma_item_unique(GitPanelItem::Section(s));
        assert(after.cursor_section() == Some(s));
        if before.expanded_sections@.contains(s) {
            assert(before.expanded_sections@.remove(s).insert(s) =~= before.expanded_sections@);
        } else {
            assert(before.expanded_sections@.insert(s).remove(s) =~= before.expanded_sections@);
        }
    } else {
        if let Some(t) = after.cursor_section() {
            // The panels agree, so the cursor would be on that header before too.
            assert(after.expanded_sections@ == before.expanded_sections@);
            assert(panel_item_spec(before.files@, before.expanded_sections@, before.cursor as int, GitPanelItem::Section(t)));
        }
    }
}

/// The daemon has answered a pull (`pulled`) or a push: its message
/// shows as the status when the operation succeeded, else as the error.
/// After a successful pull the git status is to be loaded again, which
/// the result tells.
pub fn git_sync_done(ui: &mut UiState, pulled: bool, success: bool, message: String) -> (r: bool)
    requires
        old(ui).wf(),
    ensures
        final(ui).wf(),
        r == (pulled && success),
        success ==> final(ui)@ == (UiView { status_message: Some(message@), ..old(ui)@ }),
        !success ==> final(ui)@ == (UiView { error_message: Some(message@), ..old(ui)@ }),
{
    if success {
        ui.status_message = Some(message);
    } else {
        ui.error_message = Some(message);
    }
    pulled && success
}

} // verus!
