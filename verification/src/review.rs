//! Reviewing a diff: comments on the line under the cursor (adding, editing,
//! deleting), the dialogs that take their text, and the keys of the diff view.

use vstd::prelude::*;
use crate::diff_nav::{line_number_spec, CommentJump, DiffLine, DiffState, LineComment};
use crate::keys::{KeyCode, KeyEvent};
use crate::state::{AsyncAction, DiffItem, Focus, InputMode, RightPanelView};
use crate::text::{concat, decimal_spec, int_to_string, str_eq, trim, trim_spec};
use crate::text_input::TextInputView;
use crate::ui_state::{restore_focus_spec, save_focus_spec, UiCommand, UiState, UiView};

verus! {

/// The position of the first comment on line `line` of the file at `path`.
pub open spec fn first_comment_at(comments: Seq<LineComment>, path: Seq<char>, line: i32) -> Option<int> {
    if exists|j: int|
        0 <= j < comments.len() && (#[trigger] comments[j]).file_path@ == path && comments[j].line_number
            == line {
        Some(
            choose|j: int|
                0 <= j < comments.len() && (#[trigger] comments[j]).file_path@ == path
                    && comments[j].line_number == line && forall|k: int|
                    0 <= k < j ==> !((#[trigger] comments[k]).file_path@ == path
                        && comments[k].line_number == line),
        )
    } else {
        None
    }
}

proof fn lemma_first_comment_at(comments: Seq<LineComment>, path: Seq<char>, line: i32, j: int)
    requires
        0 <= j < comments.len(),
        comments[j].file_path@ == path && comments[j].line_number == line,
        forall|k: int|
            0 <= k < j ==> !((#[trigger] comments[k]).file_path@ == path && comments[k].line_number == line),
    ensures
        first_comment_at(comments, path, line) == Some(j),
{
    let c = choose|c: int|
        0 <= c < comments.len() && (#[trigger] comments[c]).file_path@ == path && comments[c].line_number
            == line && forall|k: int|
            0 <= k < c ==> !((#[trigger] comments[k]).file_path@ == path && comments[k].line_number == line);
    if c < j {
        assert(!(comments[c].file_path@ == path && comments[c].line_number == line));
    }
    if j < c {
        assert(!(comments[j].file_path@ == path && comments[j].line_number == line));
    }
}

/// The first comment on the line of the file, by position.
pub(crate) fn find_comment(comments: &[LineComment], path: &str, line: i32) -> (r: Option<usize>)
    ensures
        match r {
            Some(j) => first_comment_at(comments@, path@, line) == Some(j as int) && j < comments@.len(),
            None => first_comment_at(comments@, path@, line) is None,
        },
{
    let mut j: usize = 0;
    while j < comments.len()
        invariant
            j <= comments@.len(),
            forall|k: int|
                0 <= k < j ==> !((#[trigger] comments@[k]).file_path@ == path@ && comments@[k].line_number
                    == line),
        decreases comments.len() - j,
    {
        if comments[j].line_number == line && str_eq(comments[j].file_path.as_str(), path) {
            proof {
                lemma_first_comment_at(comments@, path@, line, j as int);
            }
            return Some(j);
        }
        j = j + 1;
    }
    None
}

/// A comment to create, as the add-comment dialog hands it over.
#[derive(Debug)]
pub struct NewLineComment {
    pub file_path: String,
    pub line_number: i32,
    pub line_type: i32,
    pub text: String,
}

impl DiffState {
    /// The (file, line) under the cursor, when the cursor is on a line.
    pub open spec fn cursor_line(&self) -> Option<(int, int)> {
        if exists|f: usize, k: usize| #[trigger] self.current_item_spec(DiffItem::Line(f, k)) {
            let (f, k) = choose|f: usize, k: usize| #[trigger] self.current_item_spec(DiffItem::Line(f, k));
            Some((f as int, k as int))
        } else {
            None
        }
    }

    /// The diff line at line `k` of file `f`.
    pub open spec fn line_at(&self, f: int, k: int) -> DiffLine {
        self.file_lines@[f]->Some_0@[k]
    }

    /// The path and line number of the line under the cursor.
    pub open spec fn cursor_target(&self) -> Option<(Seq<char>, i32)> {
        match self.cursor_line() {
            Some((f, k)) => Some((self.files@[f]@, line_number_spec(self.line_at(f, k), k as usize))),
            None => None,
        }
    }

    /// The first comment on the line under the cursor, by position.
    pub open spec fn cursor_comment(&self, comments: Seq<LineComment>) -> Option<int> {
        match self.cursor_target() {
            Some((path, line)) => first_comment_at(comments, path, line),
            None => None,
        }
    }

    /// The line under the cursor, with its file and position in the file.
    fn current_line(&self) -> (r: Option<(usize, usize, DiffLine)>)
        requires
            self.wf(),
        ensures
            match r {
                Some((f, k, l)) => self.cursor_line() == Some((f as int, k as int)) && f < self.files@.len()
                    && self.file_lines@[f as int] is Some && k < self.file_lines@[f as int]->Some_0@.len()
                    && l == self.line_at(f as int, k as int),
                None => self.cursor_line() is None,
            },
    {
        let item = self.current_diff_item();
        proof {
            if let DiffItem::Line(f, k) = item {
                assert(self.current_item_spec(DiffItem::Line(f, k)));
                let (f2, k2) = choose|f2: usize, k2: usize| #[trigger] self.current_item_spec(DiffItem::Line(f2, k2));
                self.lemma_current_unique(DiffItem::Line(f, k), DiffItem::Line(f2, k2));
            } else {
                if exists|f: usize, k: usize| #[trigger] self.current_item_spec(DiffItem::Line(f, k)) {
                    let (f2, k2) = choose|f2: usize, k2: usize| #[trigger] self.current_item_spec(DiffItem::Line(f2, k2));
                    self.lemma_current_unique(item, DiffItem::Line(f2, k2));
                }
            }
        }
        match item {
            DiffItem::Line(f, k) => {
                proof {
                    self.lemma_line_exists(f, k);
                }
                match &self.file_lines[f] {
                    Some(lines) => Some((f, k, lines[k])),
                    None => None,
                }
            },
            _ => None,
        }
    }

    /// A line row lies in an expanded, loaded file.
    proof fn lemma_line_exists(&self, f: usize, k: usize)
        requires
            self.wf(),
            self.current_item_spec(DiffItem::Line(f, k)),
        ensures
            f < self.files@.len(),
            self.file_lines@[f as int] is Some,
            k < self.file_lines@[f as int]->Some_0@.len(),
    {
        assert(self.rows()[f as int] > k);
    }

    /// The line number of a diff line: the new one, else the old one, else
    /// its position in the file's diff.
    fn line_number(l: DiffLine, k: usize) -> (r: i32)
        ensures
            r == line_number_spec(l, k),
    {
        match l.new_lineno {
            Some(n) => n,
            None => match l.old_lineno {
                Some(o) => o,
                None => k as i32,
            },
        }
    }

    /// The comment on the line under the cursor.
    pub fn comment_under_cursor(&self, comments: &[LineComment]) -> (r: Option<usize>)
        requires
            self.wf(),
        ensures
            match r {
                Some(j) => self.cursor_comment(comments@) == Some(j as int) && j < comments@.len(),
                None => self.cursor_comment(comments@) is None,
            },
    {
        match self.current_line() {
            Some((f, k, l)) => find_comment(comments, self.files[f].as_str(), Self::line_number(l, k)),
            None => None,
        }
    }

    /// Leave the diff view: the view is emptied.
    pub fn clear_view(&mut self)
        ensures
            final(self).wf(),
            final(self).files@.len() == 0,
            final(self).cursor == 0,
            final(self).scroll_offset == 0,
            final(self).fullscreen == old(self).fullscreen,
    {
        self.files = Vec::new();
        self.expanded = Vec::new();
        self.file_lines = Vec::new();
        self.cursor = 0;
        self.scroll_offset = 0;
    }
}

/// The position of the first file at `path`.
pub open spec fn first_file_at(files: Seq<String>, path: Seq<char>) -> Option<int> {
    if exists|j: int| 0 <= j < files.len() && (#[trigger] files[j])@ == path {
        Some(choose|j: int| 0 <= j < files.len() && (#[trigger] files[j])@ == path && forall|k: int|
            0 <= k < j ==> (#[trigger] files[k])@ != path)
    } else {
        None
    }
}

/// The position of the first expanded file whose lines are not loaded.
pub open spec fn first_unloaded(expanded: Seq<bool>, file_lines: Seq<Option<Vec<DiffLine>>>) -> Option<int> {
    if exists|j: int| 0 <= j < expanded.len() && #[trigger] expanded[j] && file_lines[j] is None {
        Some(choose|j: int| 0 <= j < expanded.len() && #[trigger] expanded[j] && file_lines[j] is None
            && forall|k: int| 0 <= k < j ==> !(#[trigger] expanded[k] && file_lines[k] is None))
    } else {
        None
    }
}

/// The first position of `path` in `files`.
fn find_file(files: &Vec<String>, path: &str) -> (r: Option<usize>)
    ensures
        match r {
            Some(j) => j < files@.len() && files@[j as int]@ == path@ && forall|k: int|
                0 <= k < j ==> (#[trigger] files@[k])@ != path@,
            None => forall|k: int| 0 <= k < files@.len() ==> (#[trigger] files@[k])@ != path@,
        },
{
    let mut j: usize = 0;
    while j < files.len()
        invariant
            j <= files@.len(),
            forall|k: int| 0 <= k < j ==> (#[trigger] files@[k])@ != path@,
        decreases files.len() - j,
    {
        if str_eq(files[j].as_str(), path) {
            return Some(j);
        }
        j = j + 1;
    }
    None
}

proof fn lemma_first_file_at(files: Seq<String>, path: Seq<char>, j: int)
    requires
        0 <= j < files.len(),
        files[j]@ == path,
        forall|k: int| 0 <= k < j ==> (#[trigger] files[k])@ != path,
    ensures
        first_file_at(files, path) == Some(j),
{
    let c = choose|c: int| 0 <= c < files.len() && (#[trigger] files[c])@ == path && forall|k: int|
        0 <= k < c ==> (#[trigger] files[k])@ != path;
    if c < j {
        assert(files[c]@ != path);
    } else if c > j {
        assert(files[j]@ != path);
    }
}

proof fn lemma_first_unloaded(expanded: Seq<bool>, file_lines: Seq<Option<Vec<DiffLine>>>, j: int)
    requires
        0 <= j < expanded.len(),
        expanded[j] && file_lines[j] is None,
        forall|k: int| 0 <= k < j ==> !(#[trigger] expanded[k] && file_lines[k] is None),
    ensures
        first_unloaded(expanded, file_lines) == Some(j),
{
    let c = choose|c: int| 0 <= c < expanded.len() && #[trigger] expanded[c] && file_lines[c] is None
        && forall|k: int| 0 <= k < c ==> !(#[trigger] expanded[k] && file_lines[k] is None);
    if c < j {
        assert(!(expanded[c] && file_lines[c] is None));
    } else if c > j {
        assert(!(expanded[j] && file_lines[j] is None));
    }
}

impl DiffState {
    /// Take the list of changed files: everything collapsed and unloaded,
    /// the cursor on top. A file that the git panel asked to open is, when
    /// listed, expanded under the cursor (its first listing).
    pub fn set_files(&mut self, files: Vec<String>, pending: Option<String>)
        ensures
            final(self).wf(),
            final(self).files == files,
            final(self).file_lines@ == Seq::new(files@.len(), |i: int| None::<Vec<DiffLine>>),
            final(self).scroll_offset == 0,
            final(self).fullscreen == old(self).fullscreen,
            match pending {
                Some(p) if first_file_at(files@, p@) is Some => {
                    let j = first_file_at(files@, p@)->Some_0;
                    &&& final(self).cursor == j
                    &&& final(self).expanded@ == Seq::new(files@.len(), |i: int| i == j)
                },
                _ => final(self).cursor == 0 && final(self).expanded@ == Seq::new(files@.len(), |i: int| false),
            },
    {
        let n = files.len();
        let mut expanded: Vec<bool> = Vec::new();
        let mut file_lines: Vec<Option<Vec<DiffLine>>> = Vec::new();
        let mut i: usize = 0;
        while i < n
            invariant
                i <= n,
                expanded@ == Seq::new(i as nat, |k: int| false),
                file_lines@ == Seq::new(i as nat, |k: int| None::<Vec<DiffLine>>),
            decreases n - i,
        {
            expanded.push(false);
            file_lines.push(None);
            i = i + 1;
            assert(expanded@ =~= Seq::new(i as nat, |k: int| false));
            assert(file_lines@ =~= Seq::new(i as nat, |k: int| None::<Vec<DiffLine>>));
        }
        let mut cursor: usize = 0;
        if let Some(p) = &pending {
            match find_file(&files, p.as_str()) {
                Some(j) => {
                    proof {
                        lemma_first_file_at(files@, p@, j as int);
                    }
                    cursor = j;
                    expanded.set(j, true);
                    assert(expanded@ =~= Seq::new(n as nat, |k: int| k == j));
                },
                None => {
                    assert(!(exists|k: int| 0 <= k < files@.len() && (#[trigger] files@[k])@ == p@));
                },
            }
        }
        self.files = files;
        self.expanded = expanded;
        self.file_lines = file_lines;
        self.cursor = cursor;
        self.scroll_offset = 0;
    }

    /// The first expanded file whose lines are still to be loaded.
    pub fn file_to_load(&self) -> (r: Option<usize>)
        requires
            self.wf(),
        ensures
            match r {
                Some(j) => first_unloaded(self.expanded@, self.file_lines@) == Some(j as int),
                None => first_unloaded(self.expanded@, self.file_lines@) is None,
            },
    {
        let mut j: usize = 0;
        while j < self.expanded.len()
            invariant
                self.wf(),
                j <= self.expanded@.len(),
                forall|k: int| 0 <= k < j ==> !(#[trigger] self.expanded@[k] && self.file_lines@[k] is None),
            decreases self.expanded.len() - j,
        {
            if self.expanded[j] && self.file_lines[j].is_none() {
                proof {
                    lemma_first_unloaded(self.expanded@, self.file_lines@, j as int);
                }
                return Some(j);
            }
            j = j + 1;
        }
        None
    }

    /// The daemon has answered loading the lines of the file at `idx`: they
    /// are kept, or, on failure, the file collapses and the error message to
    /// show comes back. A position past the files changes nothing.
    pub fn file_diff_loaded(&mut self, idx: usize, outcome: Result<Vec<DiffLine>, String>) -> (r: Option<String>)
        requires
            old(self).wf(),
        ensures
            final(self).wf(),
            final(self).files == old(self).files,
            final(self).cursor == old(self).cursor,
            final(self).scroll_offset == old(self).scroll_offset,
            final(self).fullscreen == old(self).fullscreen,
            if idx < old(self).files@.len() {
                match outcome {
                    Ok(lines) => r is None && final(self).expanded == old(self).expanded
                        && final(self).file_lines@ == old(self).file_lines@.update(idx as int, Some(lines)),
                    Err(e) => r matches Some(m) && m@ == "Failed to load file diff: "@ + e@
                        && final(self).expanded@ == old(self).expanded@.update(idx as int, false)
                        && final(self).file_lines == old(self).file_lines,
                }
            } else {
                r is None && final(self).expanded == old(self).expanded && final(self).file_lines
                    == old(self).file_lines
            },
    {
        if idx >= self.files.len() {
            return None;
        }
        match outcome {
            Ok(lines) => {
                let count = lines.len();
                assert(count == lines@.len());
                self.file_lines.set(idx, Some(lines));
                None
            },
            Err(e) => {
                self.expanded.set(idx, false);
                proof {
                    reveal_strlit("Failed to load file diff: ");
                }
                Some(concat("Failed to load file diff: ", e.as_str()))
            },
        }
    }
}

/// Back from the diff view to the terminal: the sidebar takes the focus and
/// the diff view is emptied.
pub fn switch_to_terminal_view(ui: &mut UiState, diff: &mut DiffState)
    requires
        old(ui).wf(),
    ensures
        final(ui).wf(),
        final(ui)@ == (UiView { right_panel_view: RightPanelView::Terminal, focus: Focus::Sidebar, ..old(ui)@ }),
        final(diff).wf(),
        final(diff).files@.len() == 0,
        final(diff).cursor == 0,
        final(diff).scroll_offset == 0,
        final(diff).fullscreen == old(diff).fullscreen,
{
    ui.right_panel_view = RightPanelView::Terminal;
    ui.focus = Focus::Sidebar;
    diff.clear_view();
}

/// The dialog for a comment on the line under the cursor opened (the focus
/// saved), or, off a line, the message saying where to go.
pub open spec fn add_comment_started(diff: DiffState, v: UiView, w: UiView) -> bool {
    match diff.cursor_line() {
        Some((f, k)) => {
            &&& w.input_mode matches InputMode::AddLineComment { file_path, line_number, line_type }
                && file_path@ == diff.files@[f]@ && line_number == line_number_spec(
                diff.line_at(f, k),
                k as usize,
            ) && line_type == diff.line_at(f, k).line_type
            &&& w == (UiView {
                input_mode: w.input_mode,
                text: TextInputView { text: Seq::empty(), cursor: 0 },
                ..save_focus_spec(v)
            })
        },
        None => w == (UiView { status_message: Some("Move cursor to a diff line to add comment"@), ..v }),
    }
}

/// The dialog to edit the comment on the line under the cursor opened (the
/// focus saved, the field holding the comment), or the message that there is
/// none.
pub open spec fn edit_comment_started(
    diff: DiffState,
    comments: Seq<LineComment>,
    v: UiView,
    w: UiView,
) -> bool {
    match diff.cursor_comment(comments) {
        Some(j) => {
            let c = comments[j];
            &&& w.input_mode matches InputMode::EditLineComment { comment_id, file_path, line_number }
                && comment_id@ == c.id@ && file_path@ == c.file_path@ && line_number == c.line_number
            &&& w == (UiView {
                input_mode: w.input_mode,
                text: TextInputView { text: c.comment@, cursor: c.comment@.len() },
                ..save_focus_spec(v)
            })
        },
        None => w == (UiView { status_message: Some("No comment on this line to edit"@), ..v }),
    }
}

/// Open the dialog for a comment on the line under the cursor (the focus is
/// saved); off a line, say where to go.
pub fn start_add_line_comment(ui: &mut UiState, diff: &DiffState)
    requires
        old(ui).wf(),
        diff.wf(),
    ensures
        final(ui).wf(),
        add_comment_started(*diff, old(ui)@, final(ui)@),
{
    match diff.current_line() {
        Some((f, k, l)) => {
            ui.save_focus();
            ui.input_mode = InputMode::AddLineComment {
                file_path: diff.files[f].clone(),
                line_number: DiffState::line_number(l, k),
                line_type: l.line_type,
            };
            ui.text_input.clear();
        },
        None => {
            ui.status_message = Some("Move cursor to a diff line to add comment".to_owned());
        },
    }
}

/// Open the dialog to edit the comment on the line under the cursor (the
/// focus is saved, the field holds the comment); without one, say so.
pub fn start_edit_line_comment(ui: &mut UiState, diff: &DiffState, comments: &[LineComment])
    requires
        old(ui).wf(),
        diff.wf(),
    ensures
        final(ui).wf(),
        edit_comment_started(*diff, comments@, old(ui)@, final(ui)@),
{
    match diff.comment_under_cursor(comments) {
        Some(j) => {
            let c = &comments[j];
            ui.save_focus();
            ui.input_mode = InputMode::EditLineComment {
                comment_id: c.id.clone(),
                file_path: c.file_path.clone(),
                line_number: c.line_number,
            };
            ui.text_input.set_content(c.comment.as_str());
        },
        None => {
            ui.status_message = Some("No comment on this line to edit".to_owned());
        },
    }
}

/// The comment to delete: the one on the line under the cursor; without one,
/// say so.
pub fn comment_to_delete(ui: &mut UiState, diff: &DiffState, comments: &[LineComment]) -> (r: Option<
    String,
>)
    requires
        old(ui).wf(),
        diff.wf(),
    ensures
        final(ui).wf(),
        match diff.cursor_comment(comments@) {
            Some(j) => r matches Some(id) && id@ == comments@[j].id@ && final(ui)@ == old(ui)@,
            None => r is None && final(ui)@ == (UiView {
                status_message: Some("No comment on this line to delete"@),
                ..old(ui)@
            }),
        },
{
    match diff.comment_under_cursor(comments) {
        Some(j) => Some(comments[j].id.clone()),
        None => {
            ui.status_message = Some("No comment on this line to delete".to_owned());
            None
        },
    }
}

/// The dialog closed: normal input, an empty field, the saved focus back.
pub open spec fn dialog_closed(v: UiView) -> UiView {
    restore_focus_spec(
        UiView { input_mode: InputMode::Normal, text: TextInputView { text: Seq::empty(), cursor: 0 }, ..v },
    )
}

/// Submit the add-comment dialog: it closes, and the trimmed text, unless
/// empty, makes the comment to create. Outside that dialog nothing happens.
pub fn take_new_line_comment(ui: &mut UiState) -> (r: Option<NewLineComment>)
    requires
        old(ui).wf(),
    ensures
        final(ui).wf(),
        match old(ui)@.input_mode {
            InputMode::AddLineComment { file_path, line_number, line_type } => {
                let text = trim_spec(old(ui)@.text.text);
                if text.len() == 0 {
                    &&& r is None
                    &&& final(ui)@ == (UiView {
                        status_message: Some("Comment cannot be empty"@),
                        ..dialog_closed(old(ui)@)
                    })
                } else {
                    &&& final(ui)@ == dialog_closed(old(ui)@)
                    &&& r matches Some(c) && c.file_path@ == file_path@ && c.line_number == line_number
                        && c.line_type == line_type && c.text@ == text
                }
            },
            _ => r is None && final(ui)@ == old(ui)@,
        },
{
    let (file_path, line_number, line_type) = match &ui.input_mode {
        InputMode::AddLineComment { file_path, line_number, line_type } => (
            file_path.clone(),
            *line_number,
            *line_type,
        ),
        _ => {
            return None;
        },
    };
    let text = trim(ui.text_input.content()).to_owned();
    close_dialog(ui);
    if text.as_str().is_empty() {
        ui.status_message = Some("Comment cannot be empty".to_owned());
        return None;
    }
    Some(NewLineComment { file_path, line_number, line_type, text })
}

/// Submit the edit-comment dialog: it closes, and the trimmed text, unless
/// empty, is the comment's new text. Outside that dialog nothing happens.
pub fn take_line_comment_update(ui: &mut UiState) -> (r: Option<(String, String)>)
    requires
        old(ui).wf(),
    ensures
        final(ui).wf(),
        match old(ui)@.input_mode {
            InputMode::EditLineComment { comment_id, file_path, line_number } => {
                let text = trim_spec(old(ui)@.text.text);
                if text.len() == 0 {
                    &&& r is None
                    &&& final(ui)@ == (UiView {
                        status_message: Some("Comment cannot be empty"@),
                        ..dialog_closed(old(ui)@)
                    })
                } else {
                    &&& final(ui)@ == dialog_closed(old(ui)@)
                    &&& r matches Some((id, t)) && id@ == comment_id@ && t@ == text
                }
            },
            _ => r is None && final(ui)@ == old(ui)@,
        },
{
    let comment_id = match &ui.input_mode {
        InputMode::EditLineComment { comment_id, .. } => comment_id.clone(),
        _ => {
            return None;
        },
    };
    let text = trim(ui.text_input.content()).to_owned();
    close_dialog(ui);
    if text.as_str().is_empty() {
        ui.status_message = Some("Comment cannot be empty".to_owned());
        return None;
    }
    Some((comment_id, text))
}

fn close_dialog(ui: &mut UiState)
    requires
        old(ui).wf(),
    ensures
        final(ui).wf(),
        final(ui)@ == dialog_closed(old(ui)@),
{
    ui.input_mode = InputMode::Normal;
    ui.text_input.clear();
    ui.restore_focus();
}

/// The message a jump to a comment leaves, if any.
pub open spec fn jump_message(j: CommentJump) -> Option<Seq<char>> {
    match j {
        CommentJump::NotInDiff => None,
        CommentJump::Jumped(n) => Some("Jumped to comment at line "@ + decimal_spec(n as int)),
        CommentJump::NoComments => Some("No comments to jump to"@),
    }
}

/// The interface after reporting a jump to a comment.
pub open spec fn jump_reported(v: UiView, j: CommentJump) -> UiView {
    match jump_message(j) {
        Some(m) => UiView { status_message: Some(m), ..v },
        None => v,
    }
}

/// Show the message of a jump to a comment.
fn report_jump(ui: &mut UiState, j: CommentJump)
    requires
        old(ui).wf(),
    ensures
        final(ui).wf(),
        final(ui)@ == jump_reported(old(ui)@, j),
{
    match j {
        CommentJump::NotInDiff => {},
        CommentJump::Jumped(n) => {
            let number = int_to_string(n);
            ui.status_message = Some(concat("Jumped to comment at line ", number.as_str()));
        },
        CommentJump::NoComments => {
            ui.status_message = Some("No comments to jump to".to_owned());
        },
    }
}

/// Handle a key in the diff view. Moving the cursor by one row is left to the
/// caller; the other keys act here or return the request for the daemon.
pub fn handle_diff_key(ui: &mut UiState, diff: &mut DiffState, comments: &[LineComment], key: &KeyEvent) -> (r:
    UiCommand)
    requires
        old(ui).wf(),
        old(diff).wf(),
        old(diff).fits(),
    ensures
        final(ui).wf(),
        final(diff).wf(),
        match key.code {
            KeyCode::Up | KeyCode::Char('k') => r is SelectPrev && final(ui)@ == old(ui)@ && *final(diff)
                == *old(diff),
            KeyCode::Down | KeyCode::Char('j') => r is SelectNext && final(ui)@ == old(ui)@
                && *final(diff) == *old(diff),
            KeyCode::Char('{') => r is Nothing && final(ui)@ == old(ui)@ && *final(diff) == (DiffState {
                cursor: old(diff).prev_file_row(),
                ..*old(diff)
            }),
            KeyCode::Char('}') => r is Nothing && final(ui)@ == old(ui)@ && *final(diff) == (DiffState {
                cursor: match old(diff).next_file_row() {
                    Some(p) => p as usize,
                    None => old(diff).cursor,
                },
                ..*old(diff)
            }),
            KeyCode::Enter | KeyCode::Char('o') => {
                &&& final(ui)@ == old(ui)@
                &&& final(diff).files == old(diff).files
                &&& final(diff).cursor == old(diff).cursor
                &&& final(diff).fullscreen == old(diff).fullscreen
                &&& old(diff).expand_toggled(final(diff), match r {
                    UiCommand::Run(a) => Some(a),
                    _ => None,
                })
                &&& (r is Run || r is Nothing)
            },
            KeyCode::Char('x') => r matches UiCommand::Run(AsyncAction::DeleteLineComment) && final(ui)@
                == old(ui)@ && *final(diff) == *old(diff),
            KeyCode::Char('S') => r matches UiCommand::Run(AsyncAction::SubmitReviewToClaude) && final(ui)@
                == old(ui)@ && *final(diff) == *old(diff),
            KeyCode::Char('r') => r matches UiCommand::Run(AsyncAction::LoadDiffFiles) && final(ui)@
                == old(ui)@ && *final(diff) == *old(diff),
            KeyCode::Char('f') | KeyCode::Char('z') => r is Nothing && final(ui)@ == old(ui)@
                && *final(diff) == (DiffState { fullscreen: !old(diff).fullscreen, ..*old(diff) }),
            KeyCode::Esc | KeyCode::Char('q') | KeyCode::Char('t') => r is Nothing && final(ui)@ == (UiView {
                right_panel_view: RightPanelView::Terminal,
                focus: Focus::Sidebar,
                ..old(ui)@
            }) && final(diff).files@.len() == 0,
            KeyCode::Char('c') => r is Nothing && *final(diff) == *old(diff) && add_comment_started(
                *old(diff),
                old(ui)@,
                final(ui)@,
            ),
            KeyCode::Char('C') => r is Nothing && *final(diff) == *old(diff) && edit_comment_started(
                *old(diff),
                comments@,
                old(ui)@,
                final(ui)@,
            ),
            KeyCode::Char('n') => {
                let (j, row) = old(diff).next_jump(comments@);
                &&& r is Nothing
                &&& final(diff).cursor == row
                &&& *final(diff) == (DiffState { cursor: final(diff).cursor, ..*old(diff) })
                &&& final(ui)@ == jump_reported(old(ui)@, j)
            },
            KeyCode::Char('N') => {
                let (j, row) = old(diff).prev_jump(comments@);
                &&& r is Nothing
                &&& final(diff).cursor == row
                &&& *final(diff) == (DiffState { cursor: final(diff).cursor, ..*old(diff) })
                &&& final(ui)@ == jump_reported(old(ui)@, j)
            },
            _ => r is Nothing && final(ui)@ == old(ui)@ && *final(diff) == *old(diff),
        },
{
    match key.code {
        KeyCode::Up | KeyCode::Char('k') => UiCommand::SelectPrev,
        KeyCode::Down | KeyCode::Char('j') => UiCommand::SelectNext,
        KeyCode::Char('{') => {
            diff.diff_prev_file();
            UiCommand::Nothing
        },
        KeyCode::Char('}') => {
            diff.diff_next_file();
            UiCommand::Nothing
        },
        KeyCode::Enter | KeyCode::Char('o') => match diff.toggle_diff_expand() {
            Some(action) => UiCommand::Run(action),
            None => UiCommand::Nothing,
        },
        KeyCode::Char('c') => {
            start_add_line_comment(ui, diff);
            UiCommand::Nothing
        },
        KeyCode::Char('C') => {
            start_edit_line_comment(ui, diff, comments);
            UiCommand::Nothing
        },
        KeyCode::Char('x') => UiCommand::Run(AsyncAction::DeleteLineComment),
        KeyCode::Char('n') => {
            let j = diff.jump_to_next_comment(comments);
            report_jump(ui, j);
            UiCommand::Nothing
        },
        KeyCode::Char('N') => {
            let j = diff.jump_to_prev_comment(comments);
            report_jump(ui, j);
            UiCommand::Nothing
        },
        KeyCode::Char('S') => UiCommand::Run(AsyncAction::SubmitReviewToClaude),
        KeyCode::Char('r') => UiCommand::Run(AsyncAction::LoadDiffFiles),
        KeyCode::Char('f') | KeyCode::Char('z') => {
            diff.toggle_diff_fullscreen();
            UiCommand::Nothing
        },
        KeyCode::Esc | KeyCode::Char('q') | KeyCode::Char('t') => {
            switch_to_terminal_view(ui, diff);
            UiCommand::Nothing
        },
        _ => UiCommand::Nothing,
    }
}

/// The mark of a commented line's kind: `+` added, `-` deleted, a space for
/// context.
pub open spec fn line_mark(line_type: i32) -> Seq<char> {
    if line_type == 3 {
        "+"@
    } else if line_type == 4 {
        "-"@
    } else {
        " "@
    }
}

/// How one comment reads in the review request.
pub open spec fn comment_entry(c: LineComment) -> Seq<char> {
    "### Line "@ + decimal_spec(c.line_number as int) + " ("@ + line_mark(c.line_type) + ")\n"@
        + "Comment: "@ + c.comment@ + "\n\n"@
}

/// The entries of the comments on the file, in list order.
pub open spec fn file_entries(comments: Seq<LineComment>, path: Seq<char>) -> Seq<char>
    decreases comments.len(),
{
    if comments.len() == 0 {
        seq![]
    } else {
        file_entries(comments.drop_last(), path) + if comments.last().file_path@ == path {
            comment_entry(comments.last())
        } else {
            seq![]
        }
    }
}

/// The commented files, each once, in the order of their first comment.
pub open spec fn commented_files(comments: Seq<LineComment>) -> Seq<Seq<char>>
    decreases comments.len(),
{
    if comments.len() == 0 {
        seq![]
    } else {
        let earlier = commented_files(comments.drop_last());
        if earlier.contains(comments.last().file_path@) {
            earlier
        } else {
            earlier.push(comments.last().file_path@)
        }
    }
}

/// A section per file: its heading, then its comments.
pub open spec fn file_sections(comments: Seq<LineComment>, files: Seq<Seq<char>>) -> Seq<char>
    decreases files.len(),
{
    if files.len() == 0 {
        seq![]
    } else {
        file_sections(comments, files.drop_last()) + "## File: "@ + files.last() + "\n\n"@ + file_entries(
            comments,
            files.last(),
        )
    }
}

/// The request that asks the agent to review the commented changes.
pub open spec fn review_prompt_spec(comments: Seq<LineComment>) -> Seq<char> {
    "Please help me review the following code changes:\n\n"@ + file_sections(
        comments,
        commented_files(comments),
    ) + "---\nPlease provide your suggestions for the above comments.\n"@
}

/// Append the text of `s` to `out`.
fn append_str(out: &mut Vec<char>, s: &str)
    ensures
        final(out)@ == old(out)@ + s@,
{
    let mut chars = crate::text::chars_of(s);
    out.append(&mut chars);
}

/// The mark of a commented line's kind.
fn line_mark_exec(line_type: i32) -> (r: &'static str)
    ensures
        r@ == line_mark(line_type),
{
    if line_type == 3 {
        "+"
    } else if line_type == 4 {
        "-"
    } else {
        " "
    }
}

/// Whether the path is among the files.
fn contains_path(files: &Vec<String>, path: &str) -> (r: bool)
    ensures
        r == crate::text::strings_view(files@).contains(path@),
{
    let mut i: usize = 0;
    while i < files.len()
        invariant
            i <= files@.len(),
            forall|k: int| 0 <= k < i ==> (#[trigger] files@[k])@ != path@,
        decreases files.len() - i,
    {
        if str_eq(files[i].as_str(), path) {
            assert(crate::text::strings_view(files@)[i as int] == path@);
            return true;
        }
        i = i + 1;
    }
    proof {
        if crate::text::strings_view(files@).contains(path@) {
            let k = choose|k: int| 0 <= k < files@.len() && crate::text::strings_view(files@)[k] == path@;
            assert(files@[k]@ == path@);
        }
    }
    false
}

/// The request that asks the agent to review the commented changes, files in
/// the order of their first comment; `None` when there is no comment.
pub fn review_prompt(comments: &[LineComment]) -> (r: Option<String>)
    ensures
        match r {
            Some(p) => comments@.len() > 0 && p@ == review_prompt_spec(comments@),
            None => comments@.len() == 0,
        },
{
    if comments.len() == 0 {
        return None;
    }
    let mut files: Vec<String> = Vec::new();
    let mut i: usize = 0;
    while i < comments.len()
        invariant
            i <= comments@.len(),
            crate::text::strings_view(files@) == commented_files(comments@.take(i as int)),
        decreases comments.len() - i,
    {
        assert(comments@.take(i + 1).drop_last() =~= comments@.take(i as int));
        if !contains_path(&files, comments[i].file_path.as_str()) {
            let ghost before = files@;
            files.push(comments[i].file_path.clone());
            assert(crate::text::strings_view(files@) =~= crate::text::strings_view(before).push(
                comments@[i as int].file_path@,
            ));
        }
        i = i + 1;
    }
    assert(comments@.take(i as int) =~= comments@);
    let mut out: Vec<char> = Vec::new();
    append_str(&mut out, "Please help me review the following code changes:\n\n");
    let ghost head = out@;
    let mut f: usize = 0;
    while f < files.len()
        invariant
            f <= files@.len(),
            crate::text::strings_view(files@) == commented_files(comments@),
            out@ == head + file_sections(comments@, crate::text::strings_view(files@).take(f as int)),
        decreases files.len() - f,
    {
        let path = files[f].as_str();
        let ghost before = out@;
        append_str(&mut out, "## File: ");
        append_str(&mut out, path);
        append_str(&mut out, "\n\n");
        let ghost section_start = out@;
        let mut j: usize = 0;
        while j < comments.len()
            invariant
                j <= comments@.len(),
                out@ == section_start + file_entries(comments@.take(j as int), path@),
            decreases comments.len() - j,
        {
            assert(comments@.take(j + 1).drop_last() =~= comments@.take(j as int));
            let c = &comments[j];
            if str_eq(c.file_path.as_str(), path) {
                append_str(&mut out, "### Line ");
                let number = int_to_string(c.line_number);
                append_str(&mut out, number.as_str());
                append_str(&mut out, " (");
                append_str(&mut out, line_mark_exec(c.line_type));
                append_str(&mut out, ")\n");
                append_str(&mut out, "Comment: ");
                append_str(&mut out, c.comment.as_str());
                append_str(&mut out, "\n\n");
            }
            j = j + 1;
        }
        assert(comments@.take(j as int) =~= comments@);
        proof {
            let fs = crate::text::strings_view(files@);
            assert(fs.take(f + 1).drop_last() =~= fs.take(f as int));
            assert(fs.take(f + 1).last() == path@);
        }
        f = f + 1;
    }
    assert(crate::text::strings_view(files@).take(f as int) =~= crate::text::strings_view(files@));
    append_str(&mut out, "---\nPlease provide your suggestions for the above comments.\n");
    let r = crate::text::string_from_chars(out.as_slice());
    Some(r)
}

} // verus!
