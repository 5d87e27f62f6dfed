use ccm::diff_nav::{
    count_file_comments, get_line_comment, has_line_comment, CommentJump, DiffLine, DiffState,
    LineComment,
};
use ccm::outline::{next_group_start, outline_item, prev_group_start, row_of_child, OutlineItem};
use ccm::state::{AsyncAction, DiffItem};

fn numbered(old: Option<i32>, new: Option<i32>) -> DiffLine {
    DiffLine { old_lineno: old, new_lineno: new, line_type: 1 }
}

fn comment(id: &str, path: &str, line: i32) -> LineComment {
    LineComment {
        id: id.to_string(),
        file_path: path.to_string(),
        line_number: line,
        line_type: 1,
        comment: format!("note {}", id),
    }
}

/// Three files: "a.rs" expanded with three lines, "b.rs" collapsed and not loaded,
/// "c.rs" expanded with one line.
fn sample_diff() -> DiffState {
    let mut d = DiffState::new();
    d.files = vec!["a.rs".to_string(), "b.rs".to_string(), "c.rs".to_string()];
    d.expanded = vec![true, false, true];
    d.file_lines = vec![
        Some(vec![numbered(Some(1), Some(1)), numbered(Some(2), None), numbered(None, Some(3))]),
        None,
        Some(vec![numbered(Some(7), Some(8))]),
    ];
    d
}

#[test]
fn outline_rows_map_to_headers_and_children() {
    let rows = [2usize, 0, 1];
    assert_eq!(outline_item(&rows, 0), OutlineItem::Header(0));
    assert_eq!(outline_item(&rows, 1), OutlineItem::Child(0, 0));
    assert_eq!(outline_item(&rows, 2), OutlineItem::Child(0, 1));
    assert_eq!(outline_item(&rows, 3), OutlineItem::Header(1));
    assert_eq!(outline_item(&rows, 4), OutlineItem::Header(2));
    assert_eq!(outline_item(&rows, 5), OutlineItem::Child(2, 0));
    assert_eq!(outline_item(&rows, 6), OutlineItem::Beyond);
    assert_eq!(outline_item(&[], 0), OutlineItem::Beyond);
}

#[test]
fn outline_group_starts_around_cursor() {
    let rows = [2usize, 0, 1];
    assert_eq!(prev_group_start(&rows, 0), None);
    assert_eq!(prev_group_start(&rows, 2), Some(0));
    assert_eq!(prev_group_start(&rows, 3), Some(0));
    assert_eq!(prev_group_start(&rows, 5), Some(4));
    assert_eq!(next_group_start(&rows, 0), Some(3));
    assert_eq!(next_group_start(&rows, 3), Some(4));
    assert_eq!(next_group_start(&rows, 4), None);
    assert_eq!(row_of_child(&rows, 2, 0), 5);
    assert_eq!(row_of_child(&rows, 0, 1), 2);
}

#[test]
fn diff_items_under_cursor() {
    let mut d = sample_diff();
    assert_eq!(d.current_diff_item(), DiffItem::File(0));
    d.cursor = 2;
    assert_eq!(d.current_diff_item(), DiffItem::Line(0, 1));
    d.cursor = 4;
    assert_eq!(d.current_diff_item(), DiffItem::File(1));
    d.cursor = 6;
    assert_eq!(d.current_diff_item(), DiffItem::Line(2, 0));
    d.cursor = 7;
    assert_eq!(d.current_diff_item(), DiffItem::Empty);
    assert_eq!(DiffState::new().current_diff_item(), DiffItem::Empty);
}

#[test]
fn diff_file_jumps() {
    let mut d = sample_diff();
    d.cursor = 2;
    assert!(d.diff_next_file());
    assert_eq!(d.cursor, 4);
    assert!(d.diff_next_file());
    assert_eq!(d.cursor, 5);
    assert!(!d.diff_next_file());
    assert_eq!(d.cursor, 5);
    assert!(d.diff_prev_file());
    assert_eq!(d.cursor, 4);
    d.cursor = 2;
    assert!(d.diff_prev_file());
    assert_eq!(d.cursor, 0);
    assert!(!d.diff_prev_file());
    assert_eq!(d.cursor, 0);
}

#[test]
fn diff_expand_and_collapse() {
    let mut d = sample_diff();
    d.cursor = 4;
    assert!(matches!(d.toggle_diff_expand(), Some(AsyncAction::LoadFileDiff)));
    assert_eq!(d.expanded, vec![true, true, true]);
    d.cursor = 0;
    assert!(d.toggle_diff_expand().is_none());
    assert_eq!(d.expanded, vec![false, true, true]);
    assert!(d.file_lines[0].is_none());
    // On a line row nothing changes.
    let mut e = sample_diff();
    e.cursor = 1;
    assert!(e.toggle_diff_expand().is_none());
    assert_eq!(e.expanded, vec![true, false, true]);
    e.toggle_diff_fullscreen();
    assert!(e.fullscreen);
}

#[test]
fn diff_cursor_for_line() {
    let d = sample_diff();
    assert_eq!(d.calculate_cursor_for_line(0, 2), 3);
    assert_eq!(d.calculate_cursor_for_line(2, 0), 6);
    assert_eq!(d.calculate_cursor_for_line(9, 0), 7);
}

#[test]
fn comments_lookup() {
    let comments = vec![comment("c1", "a.rs", 3), comment("c2", "c.rs", 8), comment("c3", "a.rs", 1)];
    assert_eq!(get_line_comment(&comments, "a.rs", 3).map(|c| c.id.clone()), Some("c1".to_string()));
    assert!(get_line_comment(&comments, "b.rs", 3).is_none());
    assert!(has_line_comment(&comments, "c.rs", 8));
    assert!(!has_line_comment(&comments, "c.rs", 7));
    assert_eq!(count_file_comments(&comments, "a.rs"), 2);
    assert_eq!(count_file_comments(&comments, "z.rs"), 0);
}

#[test]
fn comment_jumps_wrap_around() {
    let comments = vec![comment("c1", "a.rs", 3), comment("c2", "c.rs", 8)];
    let mut d = sample_diff();
    d.cursor = 1;
    assert_eq!(d.jump_to_next_comment(&comments), CommentJump::Jumped(3));
    assert_eq!(d.cursor, 3);
    assert_eq!(d.jump_to_next_comment(&comments), CommentJump::Jumped(8));
    assert_eq!(d.cursor, 6);
    assert_eq!(d.jump_to_next_comment(&comments), CommentJump::Jumped(3));
    assert_eq!(d.cursor, 3);
    assert_eq!(d.jump_to_prev_comment(&comments), CommentJump::Jumped(8));
    assert_eq!(d.cursor, 6);
    d.cursor = 7;
    assert_eq!(d.jump_to_next_comment(&comments), CommentJump::NotInDiff);
    assert_eq!(d.cursor, 7);
    d.cursor = 0;
    assert_eq!(d.jump_to_next_comment(&[]), CommentJump::NoComments);
    assert_eq!(d.cursor, 0);
}

#[test]
fn comment_jumps_from_a_file_header_start_at_its_first_line() {
    let comments = vec![comment("c1", "a.rs", 1), comment("c2", "c.rs", 8)];
    let mut d = sample_diff();
    // On a.rs's header, the next commented line is a.rs's first line.
    d.cursor = 0;
    assert_eq!(d.jump_to_next_comment(&comments), CommentJump::Jumped(1));
    assert_eq!(d.cursor, 1);
    // On c.rs's header, the next one is c.rs's first line...
    d.cursor = 5;
    assert_eq!(d.jump_to_next_comment(&comments), CommentJump::Jumped(8));
    assert_eq!(d.cursor, 6);
    // ... and the previous one lies before c.rs.
    d.cursor = 5;
    assert_eq!(d.jump_to_prev_comment(&comments), CommentJump::Jumped(1));
    assert_eq!(d.cursor, 1);
    // On a.rs's header, the previous one wraps around to the end.
    d.cursor = 0;
    assert_eq!(d.jump_to_prev_comment(&comments), CommentJump::Jumped(8));
    assert_eq!(d.cursor, 6);
    // On b.rs's header (collapsed), the previous one lies before b.rs.
    d.cursor = 4;
    assert_eq!(d.jump_to_prev_comment(&comments), CommentJump::Jumped(1));
    assert_eq!(d.cursor, 1);
}
