//! A two-level list as the panels show it: groups (worktrees, files, git
//! sections), each a header row followed by its visible child rows. A cursor is
//! a row number in this flattened list.

use vstd::prelude::*;

verus! {

/// The row of the header of group `i`: every earlier group takes its header
/// row plus its child rows.
pub open spec fn group_start(rows: Seq<usize>, i: int) -> int
    decreases i,
{
    if i <= 0 {
        0
    } else {
        group_start(rows, i - 1) + 1 + rows[i - 1]
    }
}

/// The number of rows of the whole list.
pub open spec fn outline_total(rows: Seq<usize>) -> int {
    group_start(rows, rows.len() as int)
}

/// What a row of the flattened list shows.
#[derive(Debug, Clone, Copy, PartialEq, Eq, Structural)]
pub enum OutlineItem {
    /// The header of group `i`
    Header(usize),
    /// Child `k` of group `i`
    Child(usize, usize),
    /// The row lies past the end of the list
    Beyond,
}

/// `cursor` is the header row of group `i`.
pub open spec fn is_header_row(rows: Seq<usize>, cursor: int, i: int) -> bool {
    0 <= i < rows.len() && cursor == group_start(rows, i)
}

/// `cursor` is the row of child `k` of group `i`.
pub open spec fn is_child_row(rows: Seq<usize>, cursor: int, i: int, k: int) -> bool {
    0 <= i < rows.len() && 0 <= k < rows[i] && cursor == group_start(rows, i) + 1 + k
}

/// The item at a row: the header or child whose row it is, or past the end.
pub open spec fn outline_item_spec(rows: Seq<usize>, cursor: int, r: OutlineItem) -> bool {
    match r {
        OutlineItem::Header(i) => is_header_row(rows, cursor, i as int),
        OutlineItem::Child(i, k) => is_child_row(rows, cursor, i as int, k as int),
        OutlineItem::Beyond => cursor >= outline_total(rows),
    }
}

/// The start of group `i` depends only on the groups before it.
pub proof fn lemma_group_start_prefix(a: Seq<usize>, b: Seq<usize>, i: int)
    requires
        0 <= i <= a.len(),
        i <= b.len(),
        forall|k: int| 0 <= k < i ==> a[k] == b[k],
    ensures
        group_start(a, i) == group_start(b, i),
    decreases i,
{
    if i > 0 {
        lemma_group_start_prefix(a, b, i - 1);
    }
}

/// Group starts grow with the group index.
pub proof fn lemma_group_start_mono(rows: Seq<usize>, i: int, j: int)
    requires
        0 <= i <= j <= rows.len(),
    ensures
        group_start(rows, i) + (j - i) <= group_start(rows, j),
        i < j ==> group_start(rows, i) + 1 + rows[i] <= group_start(rows, j),
    decreases j - i,
{
    if i < j {
        lemma_group_start_mono(rows, i, j - 1);
        if i < j - 1 {
            lemma_group_start_mono(rows, i + 1, j - 1);
        }
    }
}

/// Every row of the list shows exactly one item: header rows, child rows and
/// rows past the end do not overlap.
pub proof fn law_outline_rows_are_unique(rows: Seq<usize>, cursor: int, r1: OutlineItem, r2: OutlineItem)
    requires
        0 <= cursor,
        outline_item_spec(rows, cursor, r1),
        outline_item_spec(rows, cursor, r2),
    ensures
        r1 == r2,
{
    lemma_item_unique(rows, cursor, r1, r2);
}

proof fn lemma_row_in_group(rows: Seq<usize>, cursor: int, i: int)
    requires
        0 <= i < rows.len(),
        group_start(rows, i) <= cursor <= group_start(rows, i) + rows[i],
    ensures
        forall|j: int| 0 <= j < rows.len() && j != i ==> !(#[trigger] group_start(rows, j) <= cursor
            <= group_start(rows, j) + rows[j]),
        cursor < outline_total(rows),
{
    assert forall|j: int| 0 <= j < rows.len() && j != i implies !(#[trigger] group_start(rows, j) <= cursor
        <= group_start(rows, j) + rows[j]) by {
        if j < i {
            lemma_group_start_mono(rows, j, i);
        } else {
            lemma_group_start_mono(rows, i, j);
        }
    }
    lemma_group_start_mono(rows, i, rows.len() as int);
}

proof fn lemma_item_unique(rows: Seq<usize>, cursor: int, r1: OutlineItem, r2: OutlineItem)
    requires
        outline_item_spec(rows, cursor, r1),
        outline_item_spec(rows, cursor, r2),
    ensures
        r1 == r2,
{
    match r1 {
        OutlineItem::Header(i) => lemma_row_in_group(rows, cursor, i as int),
        OutlineItem::Child(i, _) => lemma_row_in_group(rows, cursor, i as int),
        OutlineItem::Beyond => {},
    }
    match r2 {
        OutlineItem::Header(i) => lemma_row_in_group(rows, cursor, i as int),
        OutlineItem::Child(i, _) => lemma_row_in_group(rows, cursor, i as int),
        OutlineItem::Beyond => {},
    }
}

/// Every row shows some item: a header, a child, or the space past the end.
pub proof fn lemma_row_has_item(rows: Seq<usize>, p: int)
    requires
        0 <= p,
        rows.len() <= usize::MAX,
    ensures
        exists|it: OutlineItem| outline_item_spec(rows, p, it),
{
    lemma_row_has_item_from(rows, p, 0);
}

proof fn lemma_row_has_item_from(rows: Seq<usize>, p: int, i: int)
    requires
        0 <= i <= rows.len(),
        rows.len() <= usize::MAX,
        group_start(rows, i) <= p,
    ensures
        exists|it: OutlineItem| outline_item_spec(rows, p, it),
    decreases rows.len() - i,
{
    if i == rows.len() {
        assert(outline_item_spec(rows, p, OutlineItem::Beyond));
    } else if p == group_start(rows, i) {
        assert(outline_item_spec(rows, p, OutlineItem::Header(i as usize)));
    } else if p - group_start(rows, i) - 1 < rows[i] {
        assert(outline_item_spec(rows, p, OutlineItem::Child(i as usize, (p - group_start(rows, i) - 1) as usize)));
    } else {
        lemma_row_has_item_from(rows, p, i + 1);
    }
}

/// The item shown at row `cursor`.
pub fn outline_item(rows: &[usize], cursor: usize) -> (r: OutlineItem)
    ensures
        outline_item_spec(rows@, cursor as int, r),
{
    let mut pos: usize = 0;
    let mut i: usize = 0;
    while i < rows.len()
        invariant
            i <= rows@.len(),
            pos == group_start(rows@, i as int),
            pos <= cursor,
        decreases rows.len() - i,
    {
        if pos == cursor {
            return OutlineItem::Header(i);
        }
        // Here pos < cursor, so pos + 1 and the child offset cannot overflow.
        let offset = cursor - pos - 1;
        if offset < rows[i] {
            return OutlineItem::Child(i, offset);
        }
        pos = pos + 1 + rows[i];
        i = i + 1;
    }
    OutlineItem::Beyond
}

/// The number of rows of the list.
pub fn total_rows(rows: &[usize]) -> (r: usize)
    requires
        outline_total(rows@) <= usize::MAX,
    ensures
        r == outline_total(rows@),
{
    let mut total: usize = 0;
    let mut i: usize = 0;
    while i < rows.len()
        invariant
            i <= rows@.len(),
            outline_total(rows@) <= usize::MAX,
            total == group_start(rows@, i as int),
        decreases rows.len() - i,
    {
        proof {
            lemma_group_start_mono(rows@, i + 1, rows@.len() as int);
        }
        total = total + 1 + rows[i];
        i = i + 1;
    }
    total
}

/// The cursor one row up, when it is not on the first row.
pub open spec fn row_up(cursor: usize) -> Option<usize> {
    if cursor > 0 {
        Some((cursor - 1) as usize)
    } else {
        None
    }
}

/// The cursor one row down, when a row lies below it among `total`.
pub open spec fn row_down(cursor: usize, total: int) -> Option<usize> {
    if cursor + 1 < total {
        Some((cursor + 1) as usize)
    } else {
        None
    }
}

/// The row of the header of the last group that starts before `cursor` (0 when none does).
pub open spec fn last_start_before(rows: Seq<usize>, cursor: int, i: int) -> int
    decreases i,
{
    if i <= 0 {
        0
    } else if group_start(rows, i - 1) < cursor {
        group_start(rows, i - 1)
    } else {
        last_start_before(rows, cursor, i - 1)
    }
}

/// The row of the header of the first group (from `i` on) that starts after `cursor`.
pub open spec fn first_start_after(rows: Seq<usize>, cursor: int, i: int) -> Option<int>
    decreases rows.len() - i,
{
    if i < 0 || i >= rows.len() {
        None
    } else if group_start(rows, i) > cursor {
        Some(group_start(rows, i))
    } else {
        first_start_after(rows, cursor, i + 1)
    }
}

/// The header row of the group before the cursor: `None` when the cursor is on
/// the first row, else the row of the last header above the cursor.
pub fn prev_group_start(rows: &[usize], cursor: usize) -> (r: Option<usize>)
    requires
        outline_total(rows@) <= usize::MAX,
    ensures
        cursor == 0 ==> r is None,
        cursor > 0 ==> r == Some(last_start_before(rows@, cursor as int, rows@.len() as int) as usize),
{
    let mut pos: usize = 0;
    let mut last_file_pos: usize = 0;
    let mut i: usize = 0;
    while i < rows.len()
        invariant
            i <= rows@.len(),
            pos == group_start(rows@, i as int),
            last_file_pos == last_start_before(rows@, cursor as int, i as int),
            outline_total(rows@) <= usize::MAX,
        ensures
            last_file_pos == last_start_before(rows@, cursor as int, rows@.len() as int),
        decreases rows.len() - i,
    {
        if pos >= cursor {
            proof {
                lemma_last_start_stable(rows@, cursor as int, i as int, rows@.len() as int);
            }
            break;
        }
        last_file_pos = pos;
        proof {
            lemma_group_start_mono(rows@, i + 1, rows@.len() as int);
        }
        pos = pos + 1 + rows[i];
        i = i + 1;
    }
    if cursor > 0 {
        Some(last_file_pos)
    } else {
        None
    }
}

proof fn lemma_last_start_stable(rows: Seq<usize>, cursor: int, i: int, j: int)
    requires
        0 <= i <= j <= rows.len(),
        group_start(rows, i) >= cursor || i == rows.len(),
    ensures
        last_start_before(rows, cursor, j) == last_start_before(rows, cursor, i),
    decreases j - i,
{
    if i < j {
        lemma_last_start_stable(rows, cursor, i, j - 1);
        lemma_group_start_mono(rows, i, j - 1);
    }
}

/// The header row of the next group below the cursor, if any.
pub fn next_group_start(rows: &[usize], cursor: usize) -> (r: Option<usize>)
    requires
        outline_total(rows@) <= usize::MAX,
    ensures
        r matches Some(p) ==> first_start_after(rows@, cursor as int, 0) == Some(p as int),
        r is None ==> first_start_after(rows@, cursor as int, 0) is None,
{
    let mut pos: usize = 0;
    let mut i: usize = 0;
    while i < rows.len()
        invariant
            i <= rows@.len(),
            pos == group_start(rows@, i as int),
            outline_total(rows@) <= usize::MAX,
            first_start_after(rows@, cursor as int, 0) == first_start_after(
                rows@,
                cursor as int,
                i as int,
            ),
        decreases rows.len() - i,
    {
        if pos > cursor {
            return Some(pos);
        }
        proof {
            lemma_group_start_mono(rows@, i + 1, rows@.len() as int);
        }
        pos = pos + 1 + rows[i];
        i = i + 1;
    }
    None
}

/// The row of child `line` of group `group` (or the row past the end when the
/// group does not exist).
pub open spec fn child_row(rows: Seq<usize>, group: int, line: int) -> int {
    if 0 <= group < rows.len() {
        group_start(rows, group) + 1 + line
    } else {
        outline_total(rows)
    }
}

/// The row of child `line` of group `group`.
pub fn row_of_child(rows: &[usize], group: usize, line: usize) -> (r: usize)
    requires
        child_row(rows@, group as int, line as int) <= usize::MAX,
        outline_total(rows@) <= usize::MAX,
    ensures
        r == child_row(rows@, group as int, line as int),
{
    let mut cursor: usize = 0;
    let mut i: usize = 0;
    while i < rows.len()
        invariant
            i <= rows@.len(),
            cursor == group_start(rows@, i as int),
            outline_total(rows@) <= usize::MAX,
            child_row(rows@, group as int, line as int) <= usize::MAX,
            i <= group,
        decreases rows.len() - i,
    {
        proof {
            lemma_group_start_mono(rows@, i + 1, rows@.len() as int);
        }
        if i == group {
            return cursor + 1 + line;
        }
        cursor = cursor + 1 + rows[i];
        i = i + 1;
    }
    cursor
}

} // verus!
