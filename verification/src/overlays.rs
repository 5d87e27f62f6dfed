//! What the status bar, the tab bar and the dialogs show, computed apart
//! from drawing: status and help lines, tab titles, the questions of the
//! confirm dialogs, where a dialog box goes, what the main area shows, the
//! lines of the add-worktree dialog, and the pieces of a comment box.

use vstd::prelude::*;
use crate::state::{DeleteTarget, Focus, InputMode, PrefixMode, RightPanelView, TerminalMode};
use crate::ui_state::UiState;
use crate::input::AddWorktreeDialog;
use crate::text::{chars_of, concat, decimal_spec, int_to_string, string_from_chars};

verus! {

/// How many characters of a review comment a line of its box holds.
pub const COMMENT_WIDTH: usize = 50;

/// Line `i` of a comment box: the characters from `i * COMMENT_WIDTH` on, at
/// most `COMMENT_WIDTH` of them.
pub open spec fn comment_line_spec(text: Seq<char>, i: int) -> Seq<char> {
    let from = i * COMMENT_WIDTH;
    let to = if from + COMMENT_WIDTH <= text.len() {
        from + COMMENT_WIDTH
    } else {
        text.len() as int
    };
    text.subrange(from, to)
}

/// The lines of a comment box: the comment cut into pieces of
/// `COMMENT_WIDTH` characters, the last one shorter when it runs out.
pub fn comment_lines(text: &str) -> (r: Vec<String>)
    ensures
        r@.len() == (text@.len() + COMMENT_WIDTH - 1) / (COMMENT_WIDTH as int),
        forall|i: int| 0 <= i < r@.len() ==> (#[trigger] r@[i])@ == comment_line_spec(text@, i),
{
    let chars = chars_of(text);
    let n = chars.len();
    let mut r: Vec<String> = Vec::new();
    let mut from: usize = 0;
    while from < n
        invariant
            chars@ == text@,
            n == chars@.len(),
            from <= n,
            from < n ==> from == r@.len() * COMMENT_WIDTH && r@.len() < (n + COMMENT_WIDTH - 1) / (
            COMMENT_WIDTH as int),
            from >= n ==> r@.len() == (n + COMMENT_WIDTH - 1) / (COMMENT_WIDTH as int),
            forall|i: int| 0 <= i < r@.len() ==> (#[trigger] r@[i])@ == comment_line_spec(text@, i),
        decreases n - from,
    {
        let to = if n - from >= COMMENT_WIDTH {
            from + COMMENT_WIDTH
        } else {
            n
        };
        let mut piece: Vec<char> = Vec::new();
        let mut j: usize = from;
        while j < to
            invariant
                from <= j <= to <= n,
                n == chars@.len(),
                piece@ == chars@.subrange(from as int, j as int),
            decreases to - j,
        {
            piece.push(chars[j]);
            j = j + 1;
            assert(piece@ =~= chars@.subrange(from as int, j as int));
        }
        let ghost k = r@.len() as int;
        r.push(string_from_chars(piece.as_slice()));
        assert(r@[k]@ == comment_line_spec(text@, k));
        proof {
            let m = r@.len() as int;
            if to < n {
                assert(m < (n + 49) / 50) by (nonlinear_arith)
                    requires
                        to == m * 50,
                        to < n,
                ;
            } else {
                assert(m == (n + 49) / 50) by (nonlinear_arith)
                    requires
                        (m - 1) * 50 < n,
                        n <= m * 50,
                ;
            }
        }
        from = to;
    }
    r
}

/// All the lines of a comment box.
pub open spec fn comment_lines_spec(text: Seq<char>) -> Seq<Seq<char>> {
    Seq::new(
        ((text.len() + COMMENT_WIDTH - 1) / (COMMENT_WIDTH as int)) as nat,
        |i: int| comment_line_spec(text, i),
    )
}

/// Wrapping a comment loses nothing and adds nothing: the lines of its box,
/// read one after the other, give the comment back.
pub proof fn law_comment_lines_spell_comment(text: Seq<char>)
    ensures
        comment_lines_spec(text).flatten() == text,
    decreases text.len(),
{
    let ls = comment_lines_spec(text);
    if text.len() == 0 {
        assert(ls =~= Seq::<Seq<char>>::empty());
        assert(text =~= Seq::<char>::empty());
    } else if text.len() <= 50 {
        assert(ls.len() == 1);
        assert(ls.drop_first() =~= Seq::<Seq<char>>::empty());
        assert(ls.drop_first().flatten() =~= Seq::<char>::empty());
        assert(ls.first() =~= text);
        assert(ls.first() + Seq::<char>::empty() =~= text);
        assert(ls.flatten() == ls.first() + ls.drop_first().flatten());
    } else {
        let rest = text.skip(50);
        law_comment_lines_spell_comment(rest);
        let rs = comment_lines_spec(rest);
        assert(ls.len() == rs.len() + 1);
        assert forall|i: int| 0 <= i < rs.len() implies #[trigger] ls.drop_first()[i] == rs[i] by {
            assert(ls.drop_first()[i] == comment_line_spec(text, i + 1));
            assert(comment_line_spec(text, i + 1) =~= comment_line_spec(rest, i));
        }
        assert(ls.drop_first() =~= rs);
        assert(ls.first() =~= text.subrange(0, 50));
        assert(text =~= text.subrange(0, 50) + rest);
        assert(ls.flatten() == ls.first() + ls.drop_first().flatten());
    }
}

/// How many bytes the character takes in UTF-8.
pub open spec fn utf8_char_len(c: char) -> nat {
    if (c as u32) < 0x80 {
        1
    } else if (c as u32) < 0x800 {
        2
    } else if (c as u32) < 0x10000 {
        3
    } else {
        4
    }
}

/// How many bytes the text takes in UTF-8.
pub open spec fn utf8_len(s: Seq<char>) -> nat
    decreases s.len(),
{
    if s.len() == 0 {
        0
    } else {
        utf8_len(s.drop_last()) + utf8_char_len(s.last())
    }
}

/// The longest end of the text that takes at most `limit` bytes in UTF-8:
/// the text after the first character boundary that leaves at most `limit`
/// bytes.
pub open spec fn utf8_tail(s: Seq<char>, limit: nat) -> Seq<char>
    decreases s.len(),
{
    if s.len() == 0 {
        s
    } else if utf8_char_len(s.last()) <= limit {
        utf8_tail(s.drop_last(), (limit - utf8_char_len(s.last())) as nat).push(s.last())
    } else {
        Seq::empty()
    }
}

/// A path for the top of a comment box: paths over 30 bytes keep what
/// follows the first character boundary at or after their last 27 bytes,
/// after "...".
pub open spec fn shortened_path_spec(path: Seq<char>) -> Seq<char> {
    if utf8_len(path) > 30 {
        "..."@ + utf8_tail(path, 27)
    } else {
        path
    }
}

/// The UTF-8 length of a character.
fn char_utf8_len(c: char) -> (r: usize)
    ensures
        r == utf8_char_len(c),
{
    let v = c as u32;
    if v < 0x80 {
        1
    } else if v < 0x800 {
        2
    } else if v < 0x10000 {
        3
    } else {
        4
    }
}

proof fn lemma_utf8_len_grows(s: Seq<char>, i: int)
    requires
        0 <= i < s.len(),
    ensures
        utf8_len(s.take(i + 1)) == utf8_len(s.take(i)) + utf8_char_len(s[i]),
{
    assert(s.take(i + 1).drop_last() =~= s.take(i));
}

/// The path as the top of a comment box shows it.
pub fn shortened_path(path: &str) -> (r: String)
    ensures
        r@ == shortened_path_spec(path@),
{
    let chars = chars_of(path);
    let n = chars.len();
    // The byte length, counted up to 31.
    let mut bytes: usize = 0;
    let mut i: usize = 0;
    while i < n
        invariant
            i <= n,
            n == chars@.len(),
            bytes <= 31,
            bytes == (if utf8_len(chars@.take(i as int)) > 31 { 31 } else { utf8_len(chars@.take(i as int)) }),
        decreases n - i,
    {
        proof {
            lemma_utf8_len_grows(chars@, i as int);
        }
        let l = char_utf8_len(chars[i]);
        bytes = if bytes + l > 31 { 31 } else { bytes + l };
        i = i + 1;
    }
    assert(chars@.take(n as int) =~= chars@);
    if bytes > 30 {
        // Walk back from the end while the characters fit in 27 bytes.
        let mut j: usize = n;
        let mut budget: usize = 27;
        while j > 0 && char_utf8_len(chars[j - 1]) <= budget
            invariant
                j <= n,
                n == chars@.len(),
                budget <= 27,
                utf8_tail(chars@, 27) == utf8_tail(chars@.take(j as int), budget as nat) + chars@.subrange(
                    j as int,
                    n as int,
                ),
            decreases j,
        {
            let ghost pre = chars@.take(j as int);
            let l = char_utf8_len(chars[j - 1]);
            proof {
                assert(pre.last() == chars@[j - 1]);
                assert(pre.drop_last() =~= chars@.take(j - 1));
                assert(chars@.subrange(j - 1, n as int) =~= seq![chars@[j - 1]] + chars@.subrange(
                    j as int,
                    n as int,
                ));
                assert(utf8_tail(pre, budget as nat) == utf8_tail(chars@.take(j - 1), (budget - l) as nat).push(
                    chars@[j - 1],
                ));
            }
            budget = budget - l;
            j = j - 1;
            assert(utf8_tail(chars@, 27) == utf8_tail(chars@.take(j as int), budget as nat)
                + chars@.subrange(j as int, n as int));
        }
        proof {
            if j > 0 {
                let pre = chars@.take(j as int);
                assert(pre.last() == chars@[j - 1]);
            }
            assert(utf8_tail(chars@.take(j as int), budget as nat) =~= Seq::<char>::empty());
            assert(utf8_tail(chars@, 27) =~= chars@.subrange(j as int, n as int));
        }
        let mut tail: Vec<char> = Vec::new();
        let mut k: usize = j;
        while k < n
            invariant
                j <= k <= n,
                n == chars@.len(),
                tail@ == chars@.subrange(j as int, k as int),
            decreases n - k,
        {
            tail.push(chars[k]);
            k = k + 1;
            assert(tail@ =~= chars@.subrange(j as int, k as int));
        }
        let t = string_from_chars(tail.as_slice());
        concat("...", t.as_str())
    } else {
        path.to_owned()
    }
}

/// The change counts after a file name: " +3 -1", or nothing when the file
/// has neither.
pub open spec fn file_stats_spec(additions: i32, deletions: i32) -> Seq<char> {
    if additions > 0 || deletions > 0 {
        " +"@ + decimal_spec(additions as int) + " -"@ + decimal_spec(deletions as int)
    } else {
        Seq::empty()
    }
}

/// The change counts shown after a file name.
pub fn file_stats(additions: i32, deletions: i32) -> (r: String)
    ensures
        r@ == file_stats_spec(additions, deletions),
{
    if additions > 0 || deletions > 0 {
        let a = int_to_string(additions);
        let d = int_to_string(deletions);
        let head = concat(" +", a.as_str());
        let tail = concat(" -", d.as_str());
        proof {
            reveal_strlit(" +");
            reveal_strlit(" -");
        }
        let r = concat(head.as_str(), tail.as_str());
        assert(r@ =~= file_stats_spec(additions, deletions));
        r
    } else {
        String::new()
    }
}

/// What the status bar shows.
#[derive(Debug, Clone, Copy, PartialEq, Eq, Structural)]
pub enum StatusKind {
    /// The commands the prefix key offers
    Prefix,
    /// The last failure
    Error,
    /// The last status message
    Status,
    /// The keys of the focused panel
    Help,
}

/// The status bar's text and what kind of text it is.
#[derive(Debug)]
pub struct StatusLine {
    pub kind: StatusKind,
    pub text: String,
}

/// The commands the prefix key offers, as the status bar lists them.
pub open spec fn prefix_help_line() -> Seq<char> {
    "Prefix: [b] Branches | [s] Sessions | [t] Terminal | [[] Normal | [n] New | [a] Add | [d] Delete | [r] Refresh | [f] Fullscreen | [1-9] Repo | [q] Quit"@
}

/// The keys of the focused panel, as the status bar lists them.
pub open spec fn help_line(focus: Focus, mode: TerminalMode) -> Seq<char> {
    match focus {
        Focus::Sidebar => "[Ctrl+s] Prefix | [j/k] Move | [o/Enter] Expand | [g] Git | [Tab] Terminal | [n] New | [a] Add | [R] Rename | [d/x] Delete | [t] Diff | [q] Quit"@,
        Focus::GitStatus => "[j/k] Move | [o] Expand | [s] Stage | [u] Unstage | [S] Stage All | [U] Unstage All | [p] Pull | [P] Push | [r] Refresh | [Tab] Diff | [Esc] Back"@,
        Focus::Branches => "[Ctrl+s] Prefix | [1-9] Repo | [Tab] Sessions | [j/k] Move | [a] Add | [d/x] Delete | [t] Diff | [q] Quit"@,
        Focus::Sessions => "[Ctrl+s] Prefix | [Tab] Terminal | [j/k] Move | [Enter] Terminal | [n] New | [R] Rename | [d/x] Delete | [t] Diff | [q] Quit"@,
        Focus::Terminal => match mode {
            TerminalMode::Normal => "[Ctrl+s] Prefix | [j/k] Scroll | [u/d] Half page | [g/G] Top/Bottom | [i] Insert | [f] Fullscreen | [S-Tab] Exit"@,
            TerminalMode::Insert => "[Esc] Normal mode | Keys sent to terminal"@,
        },
        Focus::DiffFiles => "[j/k] Nav | [o] Expand | [c] Add | [C] Edit | [x] Del | [n/N] Jump | [S] Send | [Esc] Back"@,
    }
}

/// The help line of the focused panel.
fn help_line_exec(focus: Focus, mode: TerminalMode) -> (r: &'static str)
    ensures
        r@ == help_line(focus, mode),
{
    proof {
        reveal_strlit("[Ctrl+s] Prefix | [j/k] Move | [o/Enter] Expand | [g] Git | [Tab] Terminal | [n] New | [a] Add | [R] Rename | [d/x] Delete | [t] Diff | [q] Quit");
        reveal_strlit("[j/k] Move | [o] Expand | [s] Stage | [u] Unstage | [S] Stage All | [U] Unstage All | [p] Pull | [P] Push | [r] Refresh | [Tab] Diff | [Esc] Back");
        reveal_strlit("[Ctrl+s] Prefix | [1-9] Repo | [Tab] Sessions | [j/k] Move | [a] Add | [d/x] Delete | [t] Diff | [q] Quit");
        reveal_strlit("[Ctrl+s] Prefix | [Tab] Terminal | [j/k] Move | [Enter] Terminal | [n] New | [R] Rename | [d/x] Delete | [t] Diff | [q] Quit");
        reveal_strlit("[Ctrl+s] Prefix | [j/k] Scroll | [u/d] Half page | [g/G] Top/Bottom | [i] Insert | [f] Fullscreen | [S-Tab] Exit");
        reveal_strlit("[Esc] Normal mode | Keys sent to terminal");
        reveal_strlit("[j/k] Nav | [o] Expand | [c] Add | [C] Edit | [x] Del | [n/N] Jump | [S] Send | [Esc] Back");
    }
    match focus {
        Focus::Sidebar => "[Ctrl+s] Prefix | [j/k] Move | [o/Enter] Expand | [g] Git | [Tab] Terminal | [n] New | [a] Add | [R] Rename | [d/x] Delete | [t] Diff | [q] Quit",
        Focus::GitStatus => "[j/k] Move | [o] Expand | [s] Stage | [u] Unstage | [S] Stage All | [U] Unstage All | [p] Pull | [P] Push | [r] Refresh | [Tab] Diff | [Esc] Back",
        Focus::Branches => "[Ctrl+s] Prefix | [1-9] Repo | [Tab] Sessions | [j/k] Move | [a] Add | [d/x] Delete | [t] Diff | [q] Quit",
        Focus::Sessions => "[Ctrl+s] Prefix | [Tab] Terminal | [j/k] Move | [Enter] Terminal | [n] New | [R] Rename | [d/x] Delete | [t] Diff | [q] Quit",
        Focus::Terminal => match mode {
            TerminalMode::Normal => "[Ctrl+s] Prefix | [j/k] Scroll | [u/d] Half page | [g/G] Top/Bottom | [i] Insert | [f] Fullscreen | [S-Tab] Exit",
            TerminalMode::Insert => "[Esc] Normal mode | Keys sent to terminal",
        },
        Focus::DiffFiles => "[j/k] Nav | [o] Expand | [c] Add | [C] Edit | [x] Del | [n/N] Jump | [S] Send | [Esc] Back",
    }
}

/// What the status bar shows: while the prefix key waits, the commands it
/// offers; else the last failure, else the last status message, else the keys
/// of the focused panel.
pub fn status_line(ui: &UiState) -> (r: StatusLine)
    ensures
        ui.prefix_mode == PrefixMode::WaitingForCommand ==> r.kind == StatusKind::Prefix && r.text@ == prefix_help_line(),
        ui.prefix_mode != PrefixMode::WaitingForCommand ==> match ui.error_message {
            Some(e) => r.kind == StatusKind::Error && r.text@ == e@,
            None => match ui.status_message {
                Some(m) => r.kind == StatusKind::Status && r.text@ == m@,
                None => r.kind == StatusKind::Help && r.text@ == help_line(ui.focus, ui.terminal_mode),
            },
        },
{
    if ui.prefix_mode == PrefixMode::WaitingForCommand {
        proof {
            reveal_strlit("Prefix: [b] Branches | [s] Sessions | [t] Terminal | [[] Normal | [n] New | [a] Add | [d] Delete | [r] Refresh | [f] Fullscreen | [1-9] Repo | [q] Quit");
        }
        return StatusLine {
            kind: StatusKind::Prefix,
            text: "Prefix: [b] Branches | [s] Sessions | [t] Terminal | [[] Normal | [n] New | [a] Add | [d] Delete | [r] Refresh | [f] Fullscreen | [1-9] Repo | [q] Quit".to_owned(),
        };
    }
    match &ui.error_message {
        Some(e) => StatusLine { kind: StatusKind::Error, text: e.clone() },
        None => match &ui.status_message {
            Some(m) => StatusLine { kind: StatusKind::Status, text: m.clone() },
            None => StatusLine { kind: StatusKind::Help, text: help_line_exec(ui.focus, ui.terminal_mode).to_owned() },
        },
    }
}

/// The title of a repository's tab: the first nine are numbered from 1 (the
/// key that switches to them), the others show the name alone.
pub open spec fn tab_title_spec(index: int, name: Seq<char>) -> Seq<char> {
    if index < 9 {
        decimal_spec(index + 1) + ":"@ + name
    } else {
        name
    }
}

/// The title of the tab of the repository at `index`.
pub fn tab_title(index: usize, name: &str) -> (r: String)
    ensures
        r@ == tab_title_spec(index as int, name@),
{
    if index < 9 {
        let number = int_to_string((index + 1) as i32);
        let head = concat(number.as_str(), ":");
        proof {
            reveal_strlit(":");
        }
        let r = concat(head.as_str(), name);
        assert(r@ =~= tab_title_spec(index as int, name@));
        r
    } else {
        name.to_owned()
    }
}

/// The title and the question of a confirm dialog.
pub open spec fn question_spec(mode: InputMode) -> Option<(Seq<char>, Seq<char>)> {
    match mode {
        InputMode::ConfirmDelete(DeleteTarget::Worktree { branch, .. }) => Some(
            (" Delete Worktree "@, "Delete worktree '"@ + branch@ + "'?"@),
        ),
        InputMode::ConfirmDelete(DeleteTarget::Session { name, .. }) => Some(
            (" Delete Session "@, "Delete session '"@ + name@ + "'?"@),
        ),
        InputMode::ConfirmDeleteBranch(b) => Some(
            (" Delete Branch? "@, "Worktree deleted. Delete branch '"@ + b@ + "'?"@),
        ),
        InputMode::ConfirmDeleteWorktreeSessions { branch, session_count, .. } => Some(
            (
                " Delete Sessions? "@,
                "Worktree '"@ + branch@ + "' has "@ + decimal_spec(session_count as int) + " active "@ + if session_count
                    == 1 {
                    "session"@
                } else {
                    "sessions"@
                } + "."@,
            ),
        ),
        InputMode::ConfirmDeleteTodo { title, .. } => Some((" Confirm Delete "@, "Delete TODO: "@ + title@)),
        _ => None,
    }
}

/// `prefix`, `middle` and `suffix` one after the other.
fn framed(prefix: &str, middle: &str, suffix: &str) -> (r: String)
    ensures
        r@ == prefix@ + middle@ + suffix@,
{
    let head = concat(prefix, middle);
    concat(head.as_str(), suffix)
}

/// The title and the question that the open confirm dialog shows; none
/// when no confirm dialog is open.
pub fn confirm_question(mode: &InputMode) -> (r: Option<(String, String)>)
    ensures
        match question_spec(*mode) {
            Some((t, q)) => r matches Some((a, b)) && a@ == t && b@ == q,
            None => r is None,
        },
{
    proof {
        reveal_strlit(" Delete Worktree ");
        reveal_strlit("Delete worktree '");
        reveal_strlit("'?");
        reveal_strlit(" Delete Session ");
        reveal_strlit("Delete session '");
        reveal_strlit(" Delete Branch? ");
        reveal_strlit("Worktree deleted. Delete branch '");
        reveal_strlit(" Delete Sessions? ");
        reveal_strlit("Worktree '");
        reveal_strlit("' has ");
        reveal_strlit(" active ");
        reveal_strlit("session");
        reveal_strlit("sessions");
        reveal_strlit(".");
        reveal_strlit(" Confirm Delete ");
        reveal_strlit("Delete TODO: ");
    }
    match mode {
        InputMode::ConfirmDelete(DeleteTarget::Worktree { branch, .. }) => Some(
            (" Delete Worktree ".to_owned(), framed("Delete worktree '", branch.as_str(), "'?")),
        ),
        InputMode::ConfirmDelete(DeleteTarget::Session { name, .. }) => Some(
            (" Delete Session ".to_owned(), framed("Delete session '", name.as_str(), "'?")),
        ),
        InputMode::ConfirmDeleteBranch(b) => Some(
            (" Delete Branch? ".to_owned(), framed("Worktree deleted. Delete branch '", b.as_str(), "'?")),
        ),
        InputMode::ConfirmDeleteWorktreeSessions { branch, session_count, .. } => {
            let count = int_to_string(*session_count);
            let word = if *session_count == 1 {
                "session"
            } else {
                "sessions"
            };
            let first = framed("Worktree '", branch.as_str(), "' has ");
            let second = framed(first.as_str(), count.as_str(), " active ");
            let q = framed(second.as_str(), word, ".");
            assert(q@ =~= question_spec(*mode)->Some_0.1);
            Some((" Delete Sessions? ".to_owned(), q))
        },
        InputMode::ConfirmDeleteTodo { title, .. } => Some(
            (" Confirm Delete ".to_owned(), concat("Delete TODO: ", title.as_str())),
        ),
        _ => None,
    }
}

/// A rectangle of the screen.
#[derive(Debug, Clone, Copy, PartialEq, Eq, Structural)]
pub struct Area {
    pub x: u16,
    pub y: u16,
    pub width: u16,
    pub height: u16,
}

/// `a - b`, or 0 when `b` is larger.
pub open spec fn minus(a: int, b: int) -> int {
    if a >= b {
        a - b
    } else {
        0
    }
}

/// A dialog box centred in the area: `max_width` columns wide, or the
/// area's width less a margin of 4 when that is narrower, and `height`
/// rows high.
pub open spec fn popup_spec(area: Area, max_width: u16, height: u16) -> Area {
    let width = if max_width as int <= minus(area.width as int, 4) {
        max_width
    } else {
        minus(area.width as int, 4) as u16
    };
    Area {
        x: (minus(area.width as int, width as int) / 2 + area.x) as u16,
        y: (minus(area.height as int, height as int) / 2 + area.y) as u16,
        width,
        height,
    }
}

/// The dialog box centred in the area.
pub fn centered_popup(area: Area, max_width: u16, height: u16) -> (r: Area)
    requires
        area.x + area.width <= u16::MAX,
        area.y + area.height <= u16::MAX,
    ensures
        r == popup_spec(area, max_width, height),
{
    let room = area.width.saturating_sub(4);
    let width = if max_width <= room {
        max_width
    } else {
        room
    };
    let x = area.width.saturating_sub(width) / 2 + area.x;
    let y = area.height.saturating_sub(height) / 2 + area.y;
    Area { x, y, width, height }
}

/// A dialog box stays inside its area: across always, and down when the
/// area is tall enough for it.
pub proof fn law_popup_inside_area(area: Area, max_width: u16, height: u16)
    requires
        area.x + area.width <= u16::MAX,
        area.y + area.height <= u16::MAX,
    ensures
        ({
            let r = popup_spec(area, max_width, height);
            &&& area.x <= r.x
            &&& r.x + r.width <= area.x + area.width
            &&& area.y <= r.y
            &&& height <= area.height ==> r.y + r.height <= area.y + area.height
        }),
{
}

/// What the main area shows.
#[derive(Debug, Clone, Copy, PartialEq, Eq, Structural)]
pub enum Screen {
    /// The dialog of the input mode, in place of everything else
    Dialog,
    /// The terminal alone
    TerminalFullscreen,
    /// The diff view alone
    DiffFullscreen,
    /// The sidebar beside the terminal or the diff view
    Split(RightPanelView),
}

/// What the main area shows: an open dialog first, then a fullscreen panel
/// that has the focus, else the sidebar beside the right panel.
pub open spec fn screen_spec(ui: crate::ui_state::UiView, diff_fullscreen: bool) -> Screen {
    if !(ui.input_mode is Normal) {
        Screen::Dialog
    } else if ui.fullscreen && ui.focus == Focus::Terminal {
        Screen::TerminalFullscreen
    } else if diff_fullscreen && ui.focus == Focus::DiffFiles {
        Screen::DiffFullscreen
    } else {
        Screen::Split(ui.right_panel_view)
    }
}

/// What the main area shows; `diff_fullscreen` tells whether the diff view
/// is set to fill the screen.
pub fn screen(ui: &UiState, diff_fullscreen: bool) -> (r: Screen)
    ensures
        r == screen_spec(ui@, diff_fullscreen),
{
    match ui.input_mode {
        InputMode::Normal => {},
        _ => return Screen::Dialog,
    }
    if ui.fullscreen && ui.focus == Focus::Terminal {
        Screen::TerminalFullscreen
    } else if diff_fullscreen && ui.focus == Focus::DiffFiles {
        Screen::DiffFullscreen
    } else {
        Screen::Split(ui.right_panel_view)
    }
}

/// The lines of the add-worktree dialog.
#[derive(Debug)]
pub struct AddWorktreeLines {
    /// Where a new branch would start from
    pub base: String,
    /// One line per existing branch, the chosen one marked while nothing is typed
    pub branches: Vec<String>,
    /// The field for a new branch name
    pub input: String,
}

/// The base line of the add-worktree dialog.
pub open spec fn base_line_spec(base: Option<Seq<char>>) -> Seq<char> {
    match base {
        Some(b) => "Base: "@ + b + " (new branch will be created from here)"@,
        None => "Base: HEAD (new branch will be created from HEAD)"@,
    }
}

/// The line of branch `i` of the add-worktree dialog.
pub open spec fn branch_line_spec(dialog: AddWorktreeDialog, i: int, branch: Seq<char>) -> Seq<char> {
    (if i == dialog.selected && dialog.input@.len() == 0 {
        "> "@
    } else {
        "  "@
    }) + "○ "@ + branch
}

/// The input line of the add-worktree dialog.
pub open spec fn input_line_spec(dialog: AddWorktreeDialog) -> Seq<char> {
    if dialog.input@.len() == 0 {
        "  New: New branch: (type to create new)"@
    } else {
        "> New: "@ + dialog.input@
    }
}

/// The lines of the add-worktree dialog, opened from `base` (`None`: HEAD),
/// offering the `branches` that have no worktree.
pub fn add_worktree_lines(dialog: &AddWorktreeDialog, base: Option<&str>, branches: &[String]) -> (r: AddWorktreeLines)
    ensures
        r.base@ == base_line_spec(
            match base {
                Some(b) => Some(b@),
                None => None,
            },
        ),
        r.branches@.len() == branches@.len(),
        forall|i: int| 0 <= i < branches@.len() ==> (#[trigger] r.branches@[i])@ == branch_line_spec(*dialog, i, branches@[i]@),
        r.input@ == input_line_spec(*dialog),
{
    proof {
        reveal_strlit("Base: ");
        reveal_strlit(" (new branch will be created from here)");
        reveal_strlit("Base: HEAD (new branch will be created from HEAD)");
        reveal_strlit("> ");
        reveal_strlit("  ");
        reveal_strlit("○ ");
        reveal_strlit("  New: New branch: (type to create new)");
        reveal_strlit("> New: ");
    }
    let base_text = match base {
        Some(b) => {
            let head = concat("Base: ", b);
            concat(head.as_str(), " (new branch will be created from here)")
        },
        None => "Base: HEAD (new branch will be created from HEAD)".to_owned(),
    };
    let mut lines: Vec<String> = Vec::new();
    let mut i: usize = 0;
    while i < branches.len()
        invariant
            i <= branches@.len(),
            lines@.len() == i,
            forall|m: int| 0 <= m < i ==> (#[trigger] lines@[m])@ == branch_line_spec(*dialog, m, branches@[m]@),
        decreases branches.len() - i,
    {
        let mark = if i == dialog.selected && dialog.input.len() == 0 {
            "> "
        } else {
            "  "
        };
        let head = concat(mark, "○ ");
        let line = concat(head.as_str(), branches[i].as_str());
        assert(line@ =~= branch_line_spec(*dialog, i as int, branches@[i as int]@));
        lines.push(line);
        i = i + 1;
    }
    let input = if dialog.input.len() == 0 {
        "  New: New branch: (type to create new)".to_owned()
    } else {
        let typed = string_from_chars(dialog.input.as_slice());
        concat("> New: ", typed.as_str())
    };
    AddWorktreeLines { base: base_text, branches: lines, input }
}

/// A line without the carriage return that ended it, if one did.
pub open spec fn strip_cr(l: Seq<char>) -> Seq<char> {
    if l.len() > 0 && l.last() == '\r' {
        l.drop_last()
    } else {
        l
    }
}

/// The lines of `t` from position `i` on, `cur` being the part of the
/// current line read so far: a line ends at a newline (a carriage return
/// before it is dropped), and a last line without one counts when it is
/// not empty.
pub open spec fn lines_from(t: Seq<char>, i: int, cur: Seq<char>) -> Seq<Seq<char>>
    decreases t.len() - i,
{
    if i >= t.len() {
        if cur.len() > 0 {
            seq![cur]
        } else {
            seq![]
        }
    } else if t[i] == '\n' {
        seq![strip_cr(cur)] + lines_from(t, i + 1, seq![])
    } else {
        lines_from(t, i + 1, cur.push(t[i]))
    }
}

/// The lines of a text.
pub open spec fn text_lines(t: Seq<char>) -> Seq<Seq<char>> {
    lines_from(t, 0, seq![])
}

/// The lines of a text, without their line endings.
pub fn split_lines(text: &str) -> (r: Vec<String>)
    ensures
        r@.len() == text_lines(text@).len(),
        forall|k: int| 0 <= k < r@.len() ==> (#[trigger] r@[k])@ == text_lines(text@)[k],
{
    let chars = chars_of(text);
    let ghost t = text@;
    let mut out: Vec<String> = Vec::new();
    let ghost mut done: Seq<Seq<char>> = seq![];
    let mut cur: Vec<char> = Vec::new();
    let mut i: usize = 0;
    while i < chars.len()
        invariant
            chars@ == t,
            i <= t.len(),
            out@.len() == done.len(),
            forall|k: int| 0 <= k < out@.len() ==> (#[trigger] out@[k])@ == done[k],
            done + lines_from(t, i as int, cur@) == text_lines(t),
        decreases chars.len() - i,
    {
        let c = chars[i];
        if c == '\n' {
            let ended = if cur.len() > 0 && cur[cur.len() - 1] == '\r' {
                let mut trimmed = cur.clone();
                trimmed.pop();
                assert(trimmed@ =~= cur@.drop_last());
                string_from_chars(trimmed.as_slice())
            } else {
                string_from_chars(cur.as_slice())
            };
            assert(ended@ == strip_cr(cur@));
            proof {
                assert(lines_from(t, i as int, cur@) == seq![strip_cr(cur@)] + lines_from(t, i + 1, seq![]));
                assert(done + lines_from(t, i as int, cur@) =~= done.push(strip_cr(cur@)) + lines_from(t, i + 1, seq![]));
                done = done.push(strip_cr(cur@));
            }
            out.push(ended);
            cur = Vec::new();
            assert(cur@ =~= seq![]);
        } else {
            proof {
                assert(lines_from(t, i as int, cur@) == lines_from(t, i + 1, cur@.push(c)));
            }
            cur.push(c);
        }
        i = i + 1;
    }
    if cur.len() > 0 {
        proof {
            assert(lines_from(t, i as int, cur@) == seq![cur@]);
            done = done.push(cur@);
        }
        out.push(string_from_chars(cur.as_slice()));
    } else {
        proof {
            assert(lines_from(t, i as int, cur@) == Seq::<Seq<char>>::empty());
            assert(done + Seq::<Seq<char>>::empty() =~= done);
        }
    }
    proof {
        assert(done =~= text_lines(t));
    }
    out
}

/// The field of a comment dialog: each line of the text, the first after a
/// "> " and the others after two spaces; a lone "> " when there is no text.
pub open spec fn comment_field_spec(text: Seq<char>) -> Seq<Seq<char>> {
    let lines = text_lines(text);
    if lines.len() == 0 {
        seq!["> "@]
    } else {
        Seq::new(lines.len(), |k: int| (if k == 0 { "> "@ } else { "  "@ }) + lines[k])
    }
}

/// The lines of the field of a comment dialog.
pub fn comment_field_lines(text: &str) -> (r: Vec<String>)
    ensures
        r@.len() == comment_field_spec(text@).len(),
        forall|k: int| 0 <= k < r@.len() ==> (#[trigger] r@[k])@ == comment_field_spec(text@)[k],
{
    proof {
        reveal_strlit("> ");
        reveal_strlit("  ");
    }
    let lines = split_lines(text);
    let mut r: Vec<String> = Vec::new();
    if lines.len() == 0 {
        r.push("> ".to_owned());
        return r;
    }
    let mut k: usize = 0;
    while k < lines.len()
        invariant
            k <= lines@.len(),
            lines@.len() == text_lines(text@).len(),
            forall|m: int| 0 <= m < lines@.len() ==> (#[trigger] lines@[m])@ == text_lines(text@)[m],
            r@.len() == k,
            lines@.len() > 0,
            forall|m: int| 0 <= m < k ==> (#[trigger] r@[m])@ == comment_field_spec(text@)[m],
        decreases lines.len() - k,
    {
        let line = concat(if k == 0 {
            "> "
        } else {
            "  "
        }, lines[k].as_str());
        r.push(line);
        k = k + 1;
    }
    r
}

/// The height of a comment dialog: six rows around the field's lines (at
/// least one), but no more than the area's height less 4.
pub open spec fn comment_dialog_height_spec(field_lines: int, area_height: int) -> int {
    let wanted = 6 + if field_lines > 1 {
        field_lines
    } else {
        1
    };
    let room = if area_height >= 4 {
        area_height - 4
    } else {
        0
    };
    if wanted <= room {
        wanted
    } else {
        room
    }
}

/// The height of a comment dialog whose text has `text_line_count` lines.
pub fn comment_dialog_height(text_line_count: usize, area_height: u16) -> (r: u16)
    ensures
        r == comment_dialog_height_spec(text_line_count as int, area_height as int),
{
    let room: u16 = area_height.saturating_sub(4);
    let lines: usize = if text_line_count > 1 {
        text_line_count
    } else {
        1
    };
    if lines <= (room as usize) && 6 + lines <= (room as usize) {
        (6 + lines) as u16
    } else {
        room
    }
}

} // verus!
