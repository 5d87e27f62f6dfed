//! Navigation in the diff view: a list of changed files, each of which can be
//! expanded to show its lines, with line comments that the cursor can jump to.

use vstd::prelude::*;
use crate::outline::{
    OutlineItem,
    outline_item,
    outline_item_spec,
    outline_total,
    group_start,
    child_row,
    row_of_child,
    prev_group_start,
    next_group_start,
    last_start_before,
    first_start_after,
    lemma_group_start_mono,
    row_down,
    row_up,
    total_rows,
};
use crate::state::{AsyncAction, DiffItem};
use crate::text::str_eq;

verus! {

/// A line of a file's diff: its old and new line numbers (absent on the side
/// where the line does not exist) and its kind (the daemon's line type code).
#[derive(Debug, Clone, Copy, PartialEq, Eq, Structural)]
pub struct DiffLine {
    pub old_lineno: Option<i32>,
    pub new_lineno: Option<i32>,
    pub line_type: i32,
}

/// A comment attached to a line of a file.
#[derive(Debug, Clone, PartialEq, Eq)]
pub struct LineComment {
    pub id: String,
    pub file_path: String,
    pub line_number: i32,
    /// The kind of the commented line (the daemon's line type code)
    pub line_type: i32,
    /// The comment's text
    pub comment: String,
}

/// The diff view of one worktree.
#[derive(Debug, Clone)]
pub struct DiffState {
    /// Paths of the changed files, in display order
    pub files: Vec<String>,
    /// Which files are expanded
    pub expanded: Vec<bool>,
    /// The lines of each file, once loaded
    pub file_lines: Vec<Option<Vec<DiffLine>>>,
    /// Cursor row in the flattened list of files and lines
    pub cursor: usize,
    /// First row shown
    pub scroll_offset: usize,
    pub fullscreen: bool,
}

/// How many line rows each file shows: its lines when expanded and loaded, else none.
pub open spec fn visible_rows(
    expanded: Seq<bool>,
    file_lines: Seq<Option<Vec<DiffLine>>>,
) -> Seq<usize> {
    Seq::new(
        expanded.len(),
        |i: int|
            if expanded[i] && file_lines[i] is Some {
                file_lines[i]->Some_0@.len() as usize
            } else {
                0usize
            },
    )
}

/// The line number a diff line is known by: the new one, else the old one,
/// else its index in the file's diff.
pub open spec fn line_number_spec(l: DiffLine, k: usize) -> i32 {
    match l.new_lineno {
        Some(n) => n,
        None => match l.old_lineno {
            Some(o) => o,
            None => k as i32,
        },
    }
}

/// A line of the flattened diff: file index, line index, line number.
pub open spec fn flat_view(t: (usize, usize, i32)) -> (int, int, i32) {
    (t.0 as int, t.1 as int, t.2)
}

/// The visible lines of file `i`, in order.
pub open spec fn file_flat_lines(i: int, lines: Seq<DiffLine>) -> Seq<(int, int, i32)> {
    Seq::new(lines.len(), |k: int| (i, k, line_number_spec(lines[k], k as usize)))
}

/// The visible lines of the first `n` files, in order.
pub open spec fn flat_lines(
    expanded: Seq<bool>,
    file_lines: Seq<Option<Vec<DiffLine>>>,
    n: int,
) -> Seq<(int, int, i32)>
    decreases n,
{
    if n <= 0 {
        seq![]
    } else {
        flat_lines(expanded, file_lines, n - 1) + if expanded[n - 1] && file_lines[n - 1] is Some {
            file_flat_lines(n - 1, file_lines[n - 1]->Some_0@)
        } else {
            seq![]
        }
    }
}

/// Whether a comment sits on the line of the file.
pub open spec fn has_comment_spec(comments: Seq<LineComment>, path: Seq<char>, line: i32) -> bool {
    exists|j: int| 0 <= j < comments.len() && (#[trigger] comments[j]).file_path@ == path
        && comments[j].line_number == line
}

/// How many comments sit on lines of the file.
pub open spec fn count_comments_spec(comments: Seq<LineComment>, path: Seq<char>) -> nat
    decreases comments.len(),
{
    if comments.len() == 0 {
        0
    } else {
        count_comments_spec(comments.drop_last(), path) + if comments.last().file_path@ == path {
            1nat
        } else {
            0nat
        }
    }
}

/// The first comment on the line of the file.
pub fn get_line_comment<'a>(comments: &'a [LineComment], file_path: &str, line_number: i32) -> (r:
    Option<&'a LineComment>)
    ensures
        r matches Some(c) ==> c.file_path@ == file_path@ && c.line_number == line_number && exists|
            j: int,
        | 0 <= j < comments@.len() && comments@[j] == *c && forall|i: int|
            0 <= i < j ==> !((#[trigger] comments@[i]).file_path@ == file_path@
                && comments@[i].line_number == line_number),
        r is None ==> !has_comment_spec(comments@, file_path@, line_number),
{
    let mut i: usize = 0;
    while i < comments.len()
        invariant
            i <= comments@.len(),
            forall|j: int|
                0 <= j < i ==> !((#[trigger] comments@[j]).file_path@ == file_path@
                    && comments@[j].line_number == line_number),
        decreases comments.len() - i,
    {
        if comments[i].line_number == line_number && str_eq(comments[i].file_path.as_str(), file_path) {
            return Some(&comments[i]);
        }
        i = i + 1;
    }
    None
}

/// Whether a comment sits on the line of the file.
pub fn has_line_comment(comments: &[LineComment], file_path: &str, line_number: i32) -> (r: bool)
    ensures
        r == has_comment_spec(comments@, file_path@, line_number),
{
    get_line_comment(comments, file_path, line_number).is_some()
}

/// How many comments sit on lines of the file.
pub fn count_file_comments(comments: &[LineComment], file_path: &str) -> (r: usize)
    ensures
        r == count_comments_spec(comments@, file_path@),
{
    let mut n: usize = 0;
    let mut i: usize = 0;
    while i < comments.len()
        invariant
            i <= comments@.len(),
            n == count_comments_spec(comments@.take(i as int), file_path@),
            n <= i,
        decreases comments.len() - i,
    {
        assert(comments@.take(i + 1).drop_last() =~= comments@.take(i as int));
        if str_eq(comments[i].file_path.as_str(), file_path) {
            n = n + 1;
        }
        i = i + 1;
    }
    assert(comments@.take(comments@.len() as int) =~= comments@);
    n
}

/// The first flagged position in `from .. to`.
pub open spec fn first_flagged(flags: Seq<bool>, from: int, to: int) -> Option<int>
    decreases to - from,
{
    if from >= to {
        None
    } else if flags[from] {
        Some(from)
    } else {
        first_flagged(flags, from + 1, to)
    }
}

/// The last flagged position in `from .. to`.
pub open spec fn last_flagged(flags: Seq<bool>, from: int, to: int) -> Option<int>
    decreases to - from,
{
    if to <= from {
        None
    } else if flags[to - 1] {
        Some(to - 1)
    } else {
        last_flagged(flags, from, to - 1)
    }
}

/// The first position of the flattened lines at or after line `cl` of file `cf`.
pub open spec fn first_at_or_after(lines: Seq<(int, int, i32)>, cf: int, cl: int, p: int) -> Option<
    int,
>
    decreases lines.len() - p,
{
    if p < 0 || p >= lines.len() {
        None
    } else if lines[p].0 == cf && lines[p].1 >= cl {
        Some(p)
    } else {
        first_at_or_after(lines, cf, cl, p + 1)
    }
}

/// Where the lines of file `cf` begin among the flattened lines, looking from
/// `p` on: the first line of that file or of a later one (the end when there
/// is none).
pub open spec fn header_start(lines: Seq<(int, int, i32)>, cf: int, p: int) -> int
    decreases lines.len() - p,
{
    if p < 0 || p >= lines.len() {
        lines.len() as int
    } else if lines[p].0 >= cf {
        p
    } else {
        header_start(lines, cf, p + 1)
    }
}

/// The outcome of jumping to a comment.
#[derive(Debug, Clone, Copy, PartialEq, Eq, Structural)]
pub enum CommentJump {
    /// The cursor is on no file or line; nothing happens
    NotInDiff,
    /// The cursor moved to the commented line with this number
    Jumped(i32),
    /// No visible line has a comment
    NoComments,
}

/// Search forward from after the current position, wrapping around to the start.
pub open spec fn next_comment_target(flags: Seq<bool>, current: int) -> Option<int> {
    match first_flagged(flags, current + 1, flags.len() as int) {
        Some(q) => Some(q),
        None => first_flagged(
            flags,
            0,
            if current + 1 <= flags.len() {
                current + 1
            } else {
                flags.len() as int
            },
        ),
    }
}

/// Search backward from before the current position, wrapping around to the end.
pub open spec fn prev_comment_target(flags: Seq<bool>, current: int) -> Option<int> {
    match last_flagged(flags, 0, current) {
        Some(q) => Some(q),
        None => last_flagged(flags, current, flags.len() as int),
    }
}

fn first_flagged_exec(flags: &[bool], from: usize, to: usize) -> (r: Option<usize>)
    requires
        to <= flags@.len(),
    ensures
        r matches Some(q) ==> from <= q < to,
        r matches Some(q) ==> first_flagged(flags@, from as int, to as int) == Some(q as int),
        r is None ==> first_flagged(flags@, from as int, to as int) is None,
{
    let mut p = from;
    while p < to
        invariant
            from <= p,
            to <= flags@.len(),
            first_flagged(flags@, from as int, to as int) == first_flagged(
                flags@,
                p as int,
                to as int,
            ),
        decreases to - p,
    {
        if flags[p] {
            return Some(p);
        }
        p = p + 1;
    }
    None
}

fn last_flagged_exec(flags: &[bool], from: usize, to: usize) -> (r: Option<usize>)
    requires
        to <= flags@.len(),
    ensures
        r matches Some(q) ==> from <= q < to,
        r matches Some(q) ==> last_flagged(flags@, from as int, to as int) == Some(q as int),
        r is None ==> last_flagged(flags@, from as int, to as int) is None,
{
    let mut p = to;
    while p > from
        invariant
            p <= to <= flags@.len(),
            last_flagged(flags@, from as int, to as int) == last_flagged(
                flags@,
                from as int,
                p as int,
            ),
        decreases p,
    {
        if flags[p - 1] {
            return Some(p - 1);
        }
        p = p - 1;
    }
    None
}

/// Every loaded line list is shorter than the address space.
pub open spec fn lines_fit(file_lines: Seq<Option<Vec<DiffLine>>>) -> bool {
    forall|i: int|
        0 <= i < file_lines.len() && (#[trigger] file_lines[i]) is Some ==> file_lines[i]->Some_0@.len()
            <= usize::MAX
}

proof fn lemma_flat_lines_bounds(
    expanded: Seq<bool>,
    file_lines: Seq<Option<Vec<DiffLine>>>,
    n: int,
)
    requires
        expanded.len() == file_lines.len(),
        lines_fit(file_lines),
        0 <= n <= expanded.len(),
    ensures
        forall|p: int|
            0 <= p < flat_lines(expanded, file_lines, n).len() ==> {
                let t = #[trigger] flat_lines(expanded, file_lines, n)[p];
                &&& 0 <= t.0 < n
                &&& 0 <= t.1 < visible_rows(expanded, file_lines)[t.0]
            },
    decreases n,
{
    if n > 0 {
        lemma_flat_lines_bounds(expanded, file_lines, n - 1);
        let prev = flat_lines(expanded, file_lines, n - 1);
        let all = flat_lines(expanded, file_lines, n);
        assert forall|p: int| 0 <= p < all.len() implies {
            let t = #[trigger] all[p];
            &&& 0 <= t.0 < n
            &&& 0 <= t.1 < visible_rows(expanded, file_lines)[t.0]
        } by {
            if p < prev.len() {
                assert(all[p] == prev[p]);
            } else {
                let seg = if expanded[n - 1] && file_lines[n - 1] is Some {
                    file_flat_lines(n - 1, file_lines[n - 1]->Some_0@)
                } else {
                    seq![]
                };
                assert(all == prev + seg);
                assert(all[p] == seg[p - prev.len()]);
                assert(seg.len() > 0);
                assert(expanded[n - 1] && file_lines[n - 1] is Some);
                assert(visible_rows(expanded, file_lines)[n - 1] == file_lines[n
                    - 1]->Some_0@.len() as usize);
            }
        }
    }
}

impl DiffState {
    /// One expansion flag and one line slot per file.
    pub open spec fn wf(&self) -> bool {
        &&& self.expanded@.len() == self.files@.len()
        &&& self.file_lines@.len() == self.files@.len()
        &&& lines_fit(self.file_lines@)
    }

    /// Rows per file in the flattened list.
    pub open spec fn rows(&self) -> Seq<usize> {
        visible_rows(self.expanded@, self.file_lines@)
    }

    /// The lines the flattened list shows, in order.
    pub open spec fn flat(&self) -> Seq<(int, int, i32)> {
        flat_lines(self.expanded@, self.file_lines@, self.files@.len() as int)
    }

    /// The list fits the address space.
    pub open spec fn fits(&self) -> bool {
        outline_total(self.rows()) <= usize::MAX
    }

    /// An empty diff view.
    pub fn new() -> (r: Self)
        ensures
            r.wf(),
            r.files@.len() == 0,
            r.cursor == 0,
            r.scroll_offset == 0,
            !r.fullscreen,
    {
        DiffState {
            files: Vec::new(),
            expanded: Vec::new(),
            file_lines: Vec::new(),
            cursor: 0,
            scroll_offset: 0,
            fullscreen: false,
        }
    }

    fn rows_exec(&self) -> (r: Vec<usize>)
        requires
            self.wf(),
        ensures
            r@ == self.rows(),
    {
        let mut r: Vec<usize> = Vec::new();
        let mut i: usize = 0;
        while i < self.files.len()
            invariant
                self.wf(),
                i <= self.files@.len(),
                r@ == self.rows().take(i as int),
            decreases self.files.len() - i,
        {
            let n = if self.expanded[i] {
                match &self.file_lines[i] {
                    Some(lines) => lines.len(),
                    None => 0,
                }
            } else {
                0
            };
            r.push(n);
            i = i + 1;
            assert(r@ =~= self.rows().take(i as int));
        }
        assert(self.rows().take(self.files@.len() as int) =~= self.rows());
        r
    }

    /// The file or line under the cursor.
    pub fn current_diff_item(&self) -> (r: DiffItem)
        requires
            self.wf(),
        ensures
            self.current_item_spec(r),
            self.files@.len() == 0 ==> r == DiffItem::Empty,
            self.files@.len() > 0 ==> match r {
                DiffItem::File(i) => outline_item_spec(
                    self.rows(),
                    self.cursor as int,
                    OutlineItem::Header(i),
                ),
                DiffItem::Line(i, k) => outline_item_spec(
                    self.rows(),
                    self.cursor as int,
                    OutlineItem::Child(i, k),
                ),
                DiffItem::Empty => outline_item_spec(
                    self.rows(),
                    self.cursor as int,
                    OutlineItem::Beyond,
                ),
            },
    {
        if self.files.len() == 0 {
            return DiffItem::Empty;
        }
        let rows = self.rows_exec();
        match outline_item(rows.as_slice(), self.cursor) {
            OutlineItem::Header(i) => DiffItem::File(i),
            OutlineItem::Child(i, k) => DiffItem::Line(i, k),
            OutlineItem::Beyond => DiffItem::Empty,
        }
    }

    /// The row of the header of the file above the cursor (of the cursor's
    /// own file when it is on one of its lines).
    pub open spec fn prev_file_row(&self) -> usize {
        if self.cursor > 0 {
            last_start_before(self.rows(), self.cursor as int, self.rows().len() as int) as usize
        } else {
            self.cursor
        }
    }

    /// The row of the header of the next file below the cursor.
    pub open spec fn next_file_row(&self) -> Option<int> {
        first_start_after(self.rows(), self.cursor as int, 0)
    }

    /// The file whose header is under the cursor.
    pub open spec fn cursor_file(&self) -> Option<usize> {
        if self.files@.len() > 0 && exists|i: usize|
            outline_item_spec(self.rows(), self.cursor as int, OutlineItem::Header(i)) {
            Some(choose|i: usize| outline_item_spec(self.rows(), self.cursor as int, OutlineItem::Header(i)))
        } else {
            None
        }
    }

    /// What expanding or collapsing the file under the cursor does: an
    /// expanded file collapses and drops its lines; a collapsed one expands
    /// and asks for its lines; off a file header nothing changes.
    pub open spec fn expand_toggled(&self, after: &DiffState, r: Option<AsyncAction>) -> bool {
        match self.cursor_file() {
            Some(i) => if self.expanded@[i as int] {
                &&& r is None
                &&& after.expanded@ == self.expanded@.update(i as int, false)
                &&& after.file_lines@ == self.file_lines@.update(i as int, None)
            } else {
                &&& r matches Some(AsyncAction::LoadFileDiff)
                &&& after.expanded@ == self.expanded@.update(i as int, true)
                &&& after.file_lines@ == self.file_lines@
            },
            None => r is None && after.expanded == self.expanded && after.file_lines == self.file_lines,
        }
    }

    /// Move the cursor to the header of the file above it (to the file's own
    /// header when the cursor is on one of its lines); whether it moved.
    pub fn diff_prev_file(&mut self) -> (r: bool)
        requires
            old(self).wf(),
            old(self).fits(),
        ensures
            final(self).scroll_offset == old(self).scroll_offset,
            final(self).wf(),
            final(self).files == old(self).files,
            final(self).expanded == old(self).expanded,
            final(self).file_lines == old(self).file_lines,
            final(self).fullscreen == old(self).fullscreen,
            r == (old(self).cursor > 0),
            final(self).cursor == old(self).prev_file_row(),
    {
        let rows = self.rows_exec();
        match prev_group_start(rows.as_slice(), self.cursor) {
            Some(p) => {
                self.cursor = p;
                true
            },
            None => false,
        }
    }

    /// Move the cursor one row up; whether it moved.
    pub fn move_up(&mut self) -> (r: bool)
        ensures
            final(self).files == old(self).files,
            final(self).expanded == old(self).expanded,
            final(self).file_lines == old(self).file_lines,
            final(self).scroll_offset == old(self).scroll_offset,
            final(self).fullscreen == old(self).fullscreen,
            match row_up(old(self).cursor) {
                Some(c) => r && final(self).cursor == c,
                None => !r && final(self).cursor == old(self).cursor,
            },
    {
        if self.cursor > 0 {
            self.cursor = self.cursor - 1;
            true
        } else {
            false
        }
    }

    /// Move the cursor one row down, when a row lies below it; whether it moved.
    pub fn move_down(&mut self) -> (r: bool)
        requires
            old(self).wf(),
            old(self).fits(),
        ensures
            final(self).files == old(self).files,
            final(self).expanded == old(self).expanded,
            final(self).file_lines == old(self).file_lines,
            final(self).scroll_offset == old(self).scroll_offset,
            final(self).fullscreen == old(self).fullscreen,
            match row_down(old(self).cursor, outline_total(old(self).rows())) {
                Some(c) => r && final(self).cursor == c,
                None => !r && final(self).cursor == old(self).cursor,
            },
    {
        let rows = self.rows_exec();
        let total = total_rows(rows.as_slice());
        if self.cursor < total && total - self.cursor > 1 {
            self.cursor = self.cursor + 1;
            true
        } else {
            false
        }
    }

    /// Move the cursor to the header of the next file below it; whether it moved.
    pub fn diff_next_file(&mut self) -> (r: bool)
        requires
            old(self).wf(),
            old(self).fits(),
        ensures
            final(self).scroll_offset == old(self).scroll_offset,
            final(self).wf(),
            final(self).files == old(self).files,
            final(self).expanded == old(self).expanded,
            final(self).file_lines == old(self).file_lines,
            final(self).fullscreen == old(self).fullscreen,
            match old(self).next_file_row() {
                Some(p) => r && final(self).cursor == p,
                None => !r && final(self).cursor == old(self).cursor,
            },
    {
        let rows = self.rows_exec();
        match next_group_start(rows.as_slice(), self.cursor) {
            Some(p) => {
                self.cursor = p;
                true
            },
            None => false,
        }
    }

    /// Collapse the file under the cursor (dropping its loaded lines), or expand
    /// it and ask for its lines to be loaded. Nothing happens off a file header.
    pub fn toggle_diff_expand(&mut self) -> (r: Option<AsyncAction>)
        requires
            old(self).wf(),
        ensures
            final(self).scroll_offset == old(self).scroll_offset,
            final(self).wf(),
            final(self).files == old(self).files,
            final(self).cursor == old(self).cursor,
            final(self).fullscreen == old(self).fullscreen,
            old(self).expand_toggled(final(self), r),
    {
        let item = self.current_diff_item();
        if let DiffItem::File(file_idx) = item {
            proof {
                let i = choose|i: usize|
                    outline_item_spec(self.rows(), self.cursor as int, OutlineItem::Header(i));
                crate::outline::law_outline_rows_are_unique(
                    self.rows(),
                    self.cursor as int,
                    OutlineItem::Header(i),
                    OutlineItem::Header(file_idx),
                );
            }
            if self.expanded[file_idx] {
                self.expanded.set(file_idx, false);
                self.file_lines.set(file_idx, None);
                None
            } else {
                self.expanded.set(file_idx, true);
                Some(AsyncAction::LoadFileDiff)
            }
        } else {
            proof {
                if self.files@.len() > 0 && exists|i: usize|
                    outline_item_spec(self.rows(), self.cursor as int, OutlineItem::Header(i)) {
                    let i = choose|i: usize|
                        outline_item_spec(self.rows(), self.cursor as int, OutlineItem::Header(i));
                    match item {
                        DiffItem::Line(f, k) => crate::outline::law_outline_rows_are_unique(
                            self.rows(),
                            self.cursor as int,
                            OutlineItem::Header(i),
                            OutlineItem::Child(f, k),
                        ),
                        _ => crate::outline::law_outline_rows_are_unique(
                            self.rows(),
                            self.cursor as int,
                            OutlineItem::Header(i),
                            OutlineItem::Beyond,
                        ),
                    }
                }
            }
            None
        }
    }

    /// Toggle fullscreen display of the diff.
    pub fn toggle_diff_fullscreen(&mut self)
        ensures
            final(self).scroll_offset == old(self).scroll_offset,
            final(self).fullscreen == !old(self).fullscreen,
            final(self).files == old(self).files,
            final(self).expanded == old(self).expanded,
            final(self).file_lines == old(self).file_lines,
            final(self).cursor == old(self).cursor,
    {
        self.fullscreen = !self.fullscreen;
    }

    /// The cursor row of line `line` of file `file` (the row past the end when
    /// the file does not exist).
    pub fn calculate_cursor_for_line(&self, file: usize, line: usize) -> (r: usize)
        requires
            self.wf(),
            self.fits(),
            child_row(self.rows(), file as int, line as int) <= usize::MAX,
        ensures
            r == child_row(self.rows(), file as int, line as int),
    {
        let rows = self.rows_exec();
        row_of_child(rows.as_slice(), file, line)
    }

    /// The visible lines, in order: (file index, line index, line number).
    fn flat_exec(&self) -> (r: Vec<(usize, usize, i32)>)
        requires
            self.wf(),
        ensures
            r@.map_values(|t: (usize, usize, i32)| flat_view(t)) == self.flat(),
    {
        let mut r: Vec<(usize, usize, i32)> = Vec::new();
        let mut i: usize = 0;
        while i < self.files.len()
            invariant
                self.wf(),
                i <= self.files@.len(),
                r@.map_values(|t: (usize, usize, i32)| flat_view(t)) == flat_lines(
                    self.expanded@,
                    self.file_lines@,
                    i as int,
                ),
            decreases self.files.len() - i,
        {
            let ghost before = r@.map_values(|t: (usize, usize, i32)| flat_view(t));
            if self.expanded[i] {
                match &self.file_lines[i] {
                    Some(lines) => {
                        let mut k: usize = 0;
                        while k < lines.len()
                            invariant
                                k <= lines@.len(),
                                r@.map_values(|t: (usize, usize, i32)| flat_view(t)) == before
                                    + file_flat_lines(i as int, lines@).take(k as int),
                            decreases lines.len() - k,
                        {
                            let l = lines[k];
                            let number = match l.new_lineno {
                                Some(n) => n,
                                None => match l.old_lineno {
                                    Some(o) => o,
                                    None => k as i32,
                                },
                            };
                            assert(number == line_number_spec(lines@[k as int], k));
                            let ghost prev_r = r@.map_values(|t: (usize, usize, i32)| flat_view(t));
                            r.push((i, k, number));
                            assert(r@.map_values(|t: (usize, usize, i32)| flat_view(t)) =~= prev_r.push(
                                (i as int, k as int, number),
                            ));
                            assert(file_flat_lines(i as int, lines@).take(k + 1) =~= file_flat_lines(
                                i as int,
                                lines@,
                            ).take(k as int).push((i as int, k as int, number)));
                            k = k + 1;
                            assert(r@.map_values(|t: (usize, usize, i32)| flat_view(t)) =~= before
                                + file_flat_lines(i as int, lines@).take(k as int));
                        }
                        assert(file_flat_lines(i as int, lines@).take(k as int) =~= file_flat_lines(
                            i as int,
                            lines@,
                        ));
                    },
                    None => {
                        assert(before + seq![] =~= before);
                    },
                }
            } else {
                assert(before + seq![] =~= before);
            }
            i = i + 1;
        }
        r
    }

    /// For each visible line, whether a comment sits on it.
    fn comment_flags(&self, flat: &Vec<(usize, usize, i32)>, comments: &[LineComment]) -> (r: Vec<
        bool,
    >)
        requires
            self.wf(),
            forall|p: int| 0 <= p < flat@.len() ==> (#[trigger] flat@[p]).0 < self.files@.len(),
        ensures
            r@.len() == flat@.len(),
            forall|p: int|
                0 <= p < flat@.len() ==> #[trigger] r@[p] == has_comment_spec(
                    comments@,
                    self.files@[flat@[p].0 as int]@,
                    flat@[p].2,
                ),
    {
        let mut r: Vec<bool> = Vec::new();
        let mut p: usize = 0;
        while p < flat.len()
            invariant
                p <= flat@.len(),
                r@.len() == p,
                forall|q: int| 0 <= q < flat@.len() ==> (#[trigger] flat@[q]).0 < self.files@.len(),
                forall|q: int|
                    0 <= q < p ==> #[trigger] r@[q] == has_comment_spec(
                        comments@,
                        self.files@[flat@[q].0 as int]@,
                        flat@[q].2,
                    ),
            decreases flat.len() - p,
        {
            let (f, _, number) = flat[p];
            r.push(has_line_comment(comments, self.files[f].as_str(), number));
            p = p + 1;
        }
        r
    }

    /// Where the cursor stands in the flattened lines: (file, line) of the item
    /// under it (a file header counts as its line 0).
    fn current_file_line(&self) -> (r: Option<(usize, usize)>)
        requires
            self.wf(),
        ensures
            r matches Some((f, l)) ==> (self.current_item_spec(DiffItem::File(f)) && l == 0)
                || self.current_item_spec(DiffItem::Line(f, l)),
            r is None ==> self.current_item_spec(DiffItem::Empty),
    {
        match self.current_diff_item() {
            DiffItem::File(f) => Some((f, 0)),
            DiffItem::Line(f, l) => Some((f, l)),
            DiffItem::Empty => None,
        }
    }

    /// `current_diff_item` returns `item`.
    pub open spec fn current_item_spec(&self, item: DiffItem) -> bool {
        if self.files@.len() == 0 {
            item == DiffItem::Empty
        } else {
            match item {
                DiffItem::File(i) => outline_item_spec(self.rows(), self.cursor as int, OutlineItem::Header(i)),
                DiffItem::Line(i, k) => outline_item_spec(self.rows(), self.cursor as int, OutlineItem::Child(i, k)),
                DiffItem::Empty => outline_item_spec(self.rows(), self.cursor as int, OutlineItem::Beyond),
            }
        }
    }

    /// The flattened line comments: for each visible line, whether it has a comment.
    pub open spec fn flags_spec(&self, comments: Seq<LineComment>) -> Seq<bool> {
        Seq::new(
            self.flat().len(),
            |p: int| has_comment_spec(comments, self.files@[self.flat()[p].0]@, self.flat()[p].2),
        )
    }

    fn header_start_exec(flat: &Vec<(usize, usize, i32)>, cf: usize) -> (r: usize)
        ensures
            r <= flat@.len(),
            r == header_start(flat@.map_values(|t: (usize, usize, i32)| flat_view(t)), cf as int, 0),
    {
        let ghost fv = flat@.map_values(|t: (usize, usize, i32)| flat_view(t));
        let mut p: usize = 0;
        while p < flat.len()
            invariant
                p <= flat@.len(),
                fv == flat@.map_values(|t: (usize, usize, i32)| flat_view(t)),
                header_start(fv, cf as int, 0) == header_start(fv, cf as int, p as int),
            decreases flat.len() - p,
        {
            assert(fv[p as int] == flat_view(flat@[p as int]));
            if flat[p].0 >= cf {
                return p;
            }
            p = p + 1;
        }
        p
    }

    fn first_at_or_after_exec(flat: &Vec<(usize, usize, i32)>, cf: usize, cl: usize) -> (r: Option<
        usize,
    >)
        ensures
            r matches Some(p) ==> p < flat@.len(),
            r matches Some(p) ==> first_at_or_after(
                flat@.map_values(|t: (usize, usize, i32)| flat_view(t)),
                cf as int,
                cl as int,
                0,
            ) == Some(p as int),
            r is None ==> first_at_or_after(
                flat@.map_values(|t: (usize, usize, i32)| flat_view(t)),
                cf as int,
                cl as int,
                0,
            ) is None,
    {
        let ghost fv = flat@.map_values(|t: (usize, usize, i32)| flat_view(t));
        let mut p: usize = 0;
        while p < flat.len()
            invariant
                p <= flat@.len(),
                fv == flat@.map_values(|t: (usize, usize, i32)| flat_view(t)),
                first_at_or_after(fv, cf as int, cl as int, 0) == first_at_or_after(
                    fv,
                    cf as int,
                    cl as int,
                    p as int,
                ),
            decreases flat.len() - p,
        {
            assert(fv[p as int] == flat_view(flat@[p as int]));
            if flat[p].0 == cf && flat[p].1 >= cl {
                return Some(p);
            }
            p = p + 1;
        }
        None
    }

    /// Whether the cursor is on a file header.
    pub open spec fn on_header(&self) -> bool {
        exists|i: usize| self.current_item_spec(DiffItem::File(i))
    }

    /// The flattened line a jump to a comment lands on, if any. From a line,
    /// the search starts after it (forward) or before it (backward); from a
    /// file header, it starts at the file's first line (forward) or before it
    /// (backward). Either way it wraps around once.
    pub open spec fn jump_target(&self, comments: Seq<LineComment>, forward: bool) -> Option<int> {
        let flat = self.flat();
        let flags = self.flags_spec(comments);
        let (cf, cl) = self.current_position();
        if self.on_header() {
            let start = header_start(flat, cf, 0);
            if forward {
                next_comment_target(flags, start - 1)
            } else {
                prev_comment_target(flags, start)
            }
        } else {
            let current = match first_at_or_after(flat, cf, cl, 0) {
                Some(p) => p,
                None => if forward {
                    0
                } else {
                    flat.len() as int
                },
            };
            if forward {
                next_comment_target(flags, current)
            } else {
                prev_comment_target(flags, current)
            }
        }
    }

    /// The outcome of a jump to a comment and the cursor row then.
    pub open spec fn jump_spec(&self, comments: Seq<LineComment>, forward: bool) -> (CommentJump, int) {
        if self.current_item_spec(DiffItem::Empty) {
            (CommentJump::NotInDiff, self.cursor as int)
        } else {
            let flat = self.flat();
            match self.jump_target(comments, forward) {
                Some(q) => (CommentJump::Jumped(flat[q].2), child_row(self.rows(), flat[q].0, flat[q].1)),
                None => (CommentJump::NoComments, self.cursor as int),
            }
        }
    }

    /// Where the next commented line is (searching forward, wrapping around
    /// to the start) and the cursor row then.
    pub open spec fn next_jump(&self, comments: Seq<LineComment>) -> (CommentJump, int) {
        self.jump_spec(comments, true)
    }

    /// Where the previous commented line is (searching backward, wrapping
    /// around to the end) and the cursor row then.
    pub open spec fn prev_jump(&self, comments: Seq<LineComment>) -> (CommentJump, int) {
        self.jump_spec(comments, false)
    }

    /// Move the cursor to the next commented line, wrapping around to the start.
    pub fn jump_to_next_comment(&mut self, comments: &[LineComment]) -> (r: CommentJump)
        requires
            old(self).wf(),
            old(self).fits(),
        ensures
            final(self).scroll_offset == old(self).scroll_offset,
            final(self).wf(),
            final(self).files == old(self).files,
            final(self).expanded == old(self).expanded,
            final(self).file_lines == old(self).file_lines,
            final(self).fullscreen == old(self).fullscreen,
            (r, final(self).cursor as int) == old(self).next_jump(comments@),
    {
        self.jump_to_comment(comments, true)
    }

    /// Move the cursor to the previous commented line, wrapping around to the end.
    pub fn jump_to_prev_comment(&mut self, comments: &[LineComment]) -> (r: CommentJump)
        requires
            old(self).wf(),
            old(self).fits(),
        ensures
            final(self).scroll_offset == old(self).scroll_offset,
            final(self).wf(),
            final(self).files == old(self).files,
            final(self).expanded == old(self).expanded,
            final(self).file_lines == old(self).file_lines,
            final(self).fullscreen == old(self).fullscreen,
            (r, final(self).cursor as int) == old(self).prev_jump(comments@),
    {
        self.jump_to_comment(comments, false)
    }

    /// The (file, line) that the cursor's item stands for (a file header counts as line 0).
    pub open spec fn current_position(&self) -> (int, int) {
        if exists|i: usize| self.current_item_spec(DiffItem::File(i)) {
            ((choose|i: usize| self.current_item_spec(DiffItem::File(i))) as int, 0)
        } else {
            let (f, l) = choose|f: usize, l: usize| self.current_item_spec(DiffItem::Line(f, l));
            (f as int, l as int)
        }
    }

    /// Only one item is under the cursor.
    pub proof fn lemma_current_unique(&self, a: DiffItem, b: DiffItem)
        requires
            self.current_item_spec(a),
            self.current_item_spec(b),
        ensures
            a == b,
    {
        if self.files@.len() > 0 {
            let oa = match a {
                DiffItem::File(i) => OutlineItem::Header(i),
                DiffItem::Line(i, k) => OutlineItem::Child(i, k),
                DiffItem::Empty => OutlineItem::Beyond,
            };
            let ob = match b {
                DiffItem::File(i) => OutlineItem::Header(i),
                DiffItem::Line(i, k) => OutlineItem::Child(i, k),
                DiffItem::Empty => OutlineItem::Beyond,
            };
            crate::outline::law_outline_rows_are_unique(self.rows(), self.cursor as int, oa, ob);
        }
    }

    fn jump_to_comment(&mut self, comments: &[LineComment], forward: bool) -> (r: CommentJump)
        requires
            old(self).wf(),
            old(self).fits(),
        ensures
            final(self).scroll_offset == old(self).scroll_offset,
            final(self).wf(),
            final(self).files == old(self).files,
            final(self).expanded == old(self).expanded,
            final(self).file_lines == old(self).file_lines,
            final(self).fullscreen == old(self).fullscreen,
            (r, final(self).cursor as int) == old(self).jump_spec(comments@, forward),
    {
        let pos = self.current_file_line();
        let (cf, cl) = match pos {
            Some(p) => p,
            None => {
                return CommentJump::NotInDiff;
            },
        };
        proof {
            if self.current_item_spec(DiffItem::Empty) {
                if self.current_item_spec(DiffItem::File(cf)) {
                    self.lemma_current_unique(DiffItem::Empty, DiffItem::File(cf));
                } else {
                    self.lemma_current_unique(DiffItem::Empty, DiffItem::Line(cf, cl));
                }
            }
            if self.current_item_spec(DiffItem::File(cf)) && cl == 0 {
                assert(exists|i: usize| self.current_item_spec(DiffItem::File(i)));
                let i = choose|i: usize| self.current_item_spec(DiffItem::File(i));
                self.lemma_current_unique(DiffItem::File(i), DiffItem::File(cf));
                assert(self.current_position() == (cf as int, cl as int));
            } else {
                assert(self.current_item_spec(DiffItem::Line(cf, cl)));
                if exists|i: usize| self.current_item_spec(DiffItem::File(i)) {
                    let i = choose|i: usize| self.current_item_spec(DiffItem::File(i));
                    self.lemma_current_unique(DiffItem::File(i), DiffItem::Line(cf, cl));
                }
                let (f, l) = choose|f: usize, l: usize| self.current_item_spec(DiffItem::Line(f, l));
                self.lemma_current_unique(DiffItem::Line(f, l), DiffItem::Line(cf, cl));
                assert(self.current_position() == (cf as int, cl as int));
            }
        }
        let flat = self.flat_exec();
        let ghost fv = flat@.map_values(|t: (usize, usize, i32)| flat_view(t));
        proof {
            lemma_flat_lines_bounds(self.expanded@, self.file_lines@, self.files@.len() as int);
            assert forall|p: int| 0 <= p < flat@.len() implies (#[trigger] flat@[p]).0
                < self.files@.len() by {
                assert(fv[p] == flat_view(flat@[p]));
            }
        }
        let flags = self.comment_flags(&flat, comments);
        proof {
            assert(flags@ =~= self.flags_spec(comments@)) by {
                assert forall|p: int| 0 <= p < flags@.len() implies flags@[p] == self.flags_spec(
                    comments@,
                )[p] by {
                    assert(fv[p] == flat_view(flat@[p]));
                }
            }
        }
        let item = self.current_diff_item();
        let header = match item {
            DiffItem::File(_) => true,
            _ => false,
        };
        proof {
            if header {
                assert(self.on_header());
            } else if self.on_header() {
                let i = choose|i: usize| self.current_item_spec(DiffItem::File(i));
                self.lemma_current_unique(DiffItem::File(i), item);
            }
        }
        let n = flat.len();
        let at = if header {
            Self::header_start_exec(&flat, cf)
        } else {
            match Self::first_at_or_after_exec(&flat, cf, cl) {
                Some(p) => p,
                None => if forward {
                    0
                } else {
                    n
                },
            }
        };
        let target = if forward {
            let from = if header {
                at
            } else if at < n {
                at + 1
            } else {
                n
            };
            match first_flagged_exec(flags.as_slice(), from, n) {
                Some(q) => Some(q),
                None => first_flagged_exec(flags.as_slice(), 0, from),
            }
        } else {
            match last_flagged_exec(flags.as_slice(), 0, at) {
                Some(q) => Some(q),
                None => last_flagged_exec(flags.as_slice(), at, n),
            }
        };
        match target {
            Some(q) => {
                let (f, l, number) = flat[q];
                proof {
                    assert(fv[q as int] == flat_view(flat@[q as int]));
                    let rows = self.rows();
                    lemma_group_start_mono(rows, f as int, f + 1);
                    lemma_group_start_mono(rows, f + 1, rows.len() as int);
                }
                self.cursor = self.calculate_cursor_for_line(f, l);
                CommentJump::Jumped(number)
            },
            None => CommentJump::NoComments,
        }
    }
}

} // verus!
