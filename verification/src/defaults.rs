//! The default configuration: the key bindings of each context and the
//! default options.

use vstd::prelude::*;
use crate::binding_map::BindingMap;
use crate::config::{Bindings, Config, Options, PrefixConfig, UiConfig};
use crate::actions::{action_for_name_spec, ascii_lower, is_ascii_text, lemma_plain_reads_back, plain_name};
use crate::text::{digit_char, digit_spec, is_white_space, push_char, trim_end_spec, trim_spec, trim_start_spec};

verus! {


/// `m` with the repo switches bound: digit `d` (1 to `n`) switches to repo `d - 1`.
pub open spec fn with_repo_switches(m: Map<Seq<char>, Seq<char>>, n: nat) -> Map<Seq<char>, Seq<char>>
    decreases n,
{
    if n == 0 {
        m
    } else {
        with_repo_switches(m, (n - 1) as nat).insert(
            seq![digit_spec(n as int)],
            "switch-repo-"@.push(digit_spec(n - 1)),
        )
    }
}

/// The default binding tables.
pub open spec fn default_bindings_spec(b: Bindings) -> bool {
    &&& b.wf()
    &&& b.global@ == default_global_bindings_spec()
    &&& b.prefix@ == default_prefix_bindings_spec()
    &&& b.sidebar@ == default_sidebar_bindings_spec()
    &&& b.terminal_normal@ == default_terminal_normal_bindings_spec()
    &&& b.terminal_insert@ == default_terminal_insert_bindings_spec()
    &&& b.diff@ == default_diff_bindings_spec()
    &&& b.git_status@ == default_git_status_bindings_spec()
    &&& b.todo@ == default_todo_bindings_spec()
    &&& b.dialog_text@ == default_dialog_text_bindings_spec()
    &&& b.dialog_confirm@ == default_dialog_confirm_bindings_spec()
}

/// The default configuration.
pub open spec fn is_default_config(c: Config) -> bool {
    &&& c.prefix.key@ == "C-s"@
    &&& c.options == Options {
        tree_view_enabled: true,
        git_panel_enabled: true,
        mouse_enabled: false,
        fullscreen_on_connect: false,
        show_completed_todos: false,
    }
    &&& c.ui == UiConfig { show_borders: true, sidebar_width: 30, terminal_scrollback: 10000 }
    &&& default_bindings_spec(c.bindings)
    &&& c.source@.len() == 0
}

/// The default key bindings of every context.
pub fn default_bindings() -> (r: Bindings)
    ensures
        default_bindings_spec(r),
{
    Bindings {
        global: default_global_bindings(),
        prefix: default_prefix_bindings(),
        sidebar: default_sidebar_bindings(),
        terminal_normal: default_terminal_normal_bindings(),
        terminal_insert: default_terminal_insert_bindings(),
        diff: default_diff_bindings(),
        git_status: default_git_status_bindings(),
        todo: default_todo_bindings(),
        dialog_text: default_dialog_text_bindings(),
        dialog_confirm: default_dialog_confirm_bindings(),
    }
}

/// The default configuration: prefix `C-s`, tree view and git panel on, the
/// default bindings, no further files to read.
pub fn default_config() -> (r: Config)
    ensures
        is_default_config(r),
        r.wf(),
{
    Config {
        prefix: PrefixConfig { key: "C-s".to_owned() },
        options: Options {
            tree_view_enabled: true,
            git_panel_enabled: true,
            mouse_enabled: false,
            fullscreen_on_connect: false,
            show_completed_todos: false,
        },
        ui: UiConfig { show_borders: true, sidebar_width: 30, terminal_scrollback: 10000 },
        bindings: default_bindings(),
        source: Vec::new(),
    }
}

/// No global bindings by default.
pub open spec fn default_global_bindings_spec() -> Map<Seq<char>, Seq<char>> {
    Map::<Seq<char>, Seq<char>>::empty()
}

/// No global bindings by default.
pub fn default_global_bindings() -> (r: BindingMap)
    ensures
        r.wf(),
        r@ == default_global_bindings_spec(),
{
    let map = BindingMap::new();
    map
}

/// Bindings after the prefix key (`C-s`).
pub open spec fn default_prefix_bindings_spec() -> Map<Seq<char>, Seq<char>> {
    with_repo_switches(default_prefix_base(), 9)
}

/// The bindings after the prefix key other than the repository switches.
pub open spec fn default_prefix_base() -> Map<Seq<char>, Seq<char>> {
    Map::<Seq<char>, Seq<char>>::empty()
        .insert("b"@, "focus-branches"@)
        .insert("s"@, "focus-sessions"@)
        .insert("t"@, "focus-terminal"@)
        .insert("n"@, "create-session"@)
        .insert("a"@, "add-worktree"@)
        .insert("d"@, "delete-current"@)
        .insert("r"@, "refresh-all"@)
        .insert("f"@, "toggle-fullscreen"@)
        .insert("z"@, "toggle-fullscreen"@)
        .insert("["@, "terminal-normal-mode"@)
        .insert("w"@, "focus-sidebar"@)
        .insert("g"@, "focus-git-status"@)
        .insert("v"@, "focus-diff"@)
        .insert("o"@, "open-todo"@)
        .insert("q"@, "quit"@)
}

/// Bindings after the prefix key (`C-s`).
pub fn default_prefix_bindings() -> (r: BindingMap)
    ensures
        r.wf(),
        r@ == default_prefix_bindings_spec(),
{
    let mut map = BindingMap::new();
    map.insert("b".to_owned(), "focus-branches".to_owned());
    map.insert("s".to_owned(), "focus-sessions".to_owned());
    map.insert("t".to_owned(), "focus-terminal".to_owned());
    map.insert("n".to_owned(), "create-session".to_owned());
    map.insert("a".to_owned(), "add-worktree".to_owned());
    map.insert("d".to_owned(), "delete-current".to_owned());
    map.insert("r".to_owned(), "refresh-all".to_owned());
    map.insert("f".to_owned(), "toggle-fullscreen".to_owned());
    map.insert("z".to_owned(), "toggle-fullscreen".to_owned());
    map.insert("[".to_owned(), "terminal-normal-mode".to_owned());
    map.insert("w".to_owned(), "focus-sidebar".to_owned());
    map.insert("g".to_owned(), "focus-git-status".to_owned());
    map.insert("v".to_owned(), "focus-diff".to_owned());
    map.insert("o".to_owned(), "open-todo".to_owned());
    map.insert("q".to_owned(), "quit".to_owned());
    let ghost base = map@;
    assert(base == Map::<Seq<char>, Seq<char>>::empty()
        .insert("b"@, "focus-branches"@)
        .insert("s"@, "focus-sessions"@)
        .insert("t"@, "focus-terminal"@)
        .insert("n"@, "create-session"@)
        .insert("a"@, "add-worktree"@)
        .insert("d"@, "delete-current"@)
        .insert("r"@, "refresh-all"@)
        .insert("f"@, "toggle-fullscreen"@)
        .insert("z"@, "toggle-fullscreen"@)
        .insert("["@, "terminal-normal-mode"@)
        .insert("w"@, "focus-sidebar"@)
        .insert("g"@, "focus-git-status"@)
        .insert("v"@, "focus-diff"@)
        .insert("o"@, "open-todo"@)
        .insert("q"@, "quit"@));
    // Repo switching: digit d switches to repo d - 1.
    let mut i: u8 = 1;
    while i <= 9
        invariant
            1 <= i <= 10,
            map.wf(),
            map@ == with_repo_switches(base, (i - 1) as nat),
        decreases 10 - i,
    {
        let mut key = String::new();
        push_char(&mut key, digit_char(i));
        let mut value = "switch-repo-".to_owned();
        push_char(&mut value, digit_char(i - 1));
        map.insert(key, value);
        i = i + 1;
    }
    map
}

/// Bindings of the sidebar.
pub open spec fn default_sidebar_bindings_spec() -> Map<Seq<char>, Seq<char>> {
    Map::<Seq<char>, Seq<char>>::empty()
        .insert("1"@, "switch-repo-0"@)
        .insert("2"@, "switch-repo-1"@)
        .insert("3"@, "switch-repo-2"@)
        .insert("4"@, "switch-repo-3"@)
        .insert("5"@, "switch-repo-4"@)
        .insert("6"@, "switch-repo-5"@)
        .insert("7"@, "switch-repo-6"@)
        .insert("8"@, "switch-repo-7"@)
        .insert("9"@, "switch-repo-8"@)
        .insert("Tab"@, "focus-next"@)
        .insert("S-Tab"@, "focus-prev"@)
        .insert("Esc"@, "focus-prev"@)
        .insert("j"@, "move-down"@)
        .insert("Down"@, "move-down"@)
        .insert("k"@, "move-up"@)
        .insert("Up"@, "move-up"@)
        .insert("Enter"@, "select"@)
        .insert("o"@, "toggle-expand"@)
        .insert("T"@, "toggle-tree-view"@)
        .insert("g"@, "focus-git-status"@)
        .insert("n"@, "create-session"@)
        .insert("a"@, "add-worktree"@)
        .insert("d"@, "delete-current"@)
        .insert("x"@, "delete-current"@)
        .insert("R"@, "rename-session"@)
        .insert("r"@, "refresh-all"@)
        .insert("q"@, "quit"@)
        .insert("t"@, "toggle-diff-view"@)
}

/// Bindings of the sidebar.
pub fn default_sidebar_bindings() -> (r: BindingMap)
    ensures
        r.wf(),
        r@ == default_sidebar_bindings_spec(),
{
    let mut map = BindingMap::new();
    map.insert("1".to_owned(), "switch-repo-0".to_owned());
    map.insert("2".to_owned(), "switch-repo-1".to_owned());
    map.insert("3".to_owned(), "switch-repo-2".to_owned());
    map.insert("4".to_owned(), "switch-repo-3".to_owned());
    map.insert("5".to_owned(), "switch-repo-4".to_owned());
    map.insert("6".to_owned(), "switch-repo-5".to_owned());
    map.insert("7".to_owned(), "switch-repo-6".to_owned());
    map.insert("8".to_owned(), "switch-repo-7".to_owned());
    map.insert("9".to_owned(), "switch-repo-8".to_owned());
    map.insert("Tab".to_owned(), "focus-next".to_owned());
    map.insert("S-Tab".to_owned(), "focus-prev".to_owned());
    map.insert("Esc".to_owned(), "focus-prev".to_owned());
    map.insert("j".to_owned(), "move-down".to_owned());
    map.insert("Down".to_owned(), "move-down".to_owned());
    map.insert("k".to_owned(), "move-up".to_owned());
    map.insert("Up".to_owned(), "move-up".to_owned());
    map.insert("Enter".to_owned(), "select".to_owned());
    map.insert("o".to_owned(), "toggle-expand".to_owned());
    map.insert("T".to_owned(), "toggle-tree-view".to_owned());
    map.insert("g".to_owned(), "focus-git-status".to_owned());
    map.insert("n".to_owned(), "create-session".to_owned());
    map.insert("a".to_owned(), "add-worktree".to_owned());
    map.insert("d".to_owned(), "delete-current".to_owned());
    map.insert("x".to_owned(), "delete-current".to_owned());
    map.insert("R".to_owned(), "rename-session".to_owned());
    map.insert("r".to_owned(), "refresh-all".to_owned());
    map.insert("q".to_owned(), "quit".to_owned());
    map.insert("t".to_owned(), "toggle-diff-view".to_owned());
    map
}

/// Bindings of the terminal in normal (scroll) mode.
pub open spec fn default_terminal_normal_bindings_spec() -> Map<Seq<char>, Seq<char>> {
    Map::<Seq<char>, Seq<char>>::empty()
        .insert("f"@, "toggle-fullscreen"@)
        .insert("z"@, "toggle-fullscreen"@)
        .insert("Esc"@, "exit-fullscreen"@)
        .insert("i"@, "insert-mode"@)
        .insert("Enter"@, "insert-mode"@)
        .insert("k"@, "scroll-up"@)
        .insert("Up"@, "scroll-up"@)
        .insert("j"@, "scroll-down"@)
        .insert("Down"@, "scroll-down"@)
        .insert("u"@, "scroll-half-page-up"@)
        .insert("d"@, "scroll-half-page-down"@)
        .insert("g"@, "scroll-top"@)
        .insert("G"@, "scroll-bottom"@)
        .insert("S-Tab"@, "exit-terminal"@)
}

/// Bindings of the terminal in normal (scroll) mode.
pub fn default_terminal_normal_bindings() -> (r: BindingMap)
    ensures
        r.wf(),
        r@ == default_terminal_normal_bindings_spec(),
{
    let mut map = BindingMap::new();
    map.insert("f".to_owned(), "toggle-fullscreen".to_owned());
    map.insert("z".to_owned(), "toggle-fullscreen".to_owned());
    map.insert("Esc".to_owned(), "exit-fullscreen".to_owned());
    map.insert("i".to_owned(), "insert-mode".to_owned());
    map.insert("Enter".to_owned(), "insert-mode".to_owned());
    map.insert("k".to_owned(), "scroll-up".to_owned());
    map.insert("Up".to_owned(), "scroll-up".to_owned());
    map.insert("j".to_owned(), "scroll-down".to_owned());
    map.insert("Down".to_owned(), "scroll-down".to_owned());
    map.insert("u".to_owned(), "scroll-half-page-up".to_owned());
    map.insert("d".to_owned(), "scroll-half-page-down".to_owned());
    map.insert("g".to_owned(), "scroll-top".to_owned());
    map.insert("G".to_owned(), "scroll-bottom".to_owned());
    map.insert("S-Tab".to_owned(), "exit-terminal".to_owned());
    map
}

/// Bindings of the terminal in insert mode; most keys go to the terminal.
pub open spec fn default_terminal_insert_bindings_spec() -> Map<Seq<char>, Seq<char>> {
    Map::<Seq<char>, Seq<char>>::empty()
        .insert("C-`"@, "switch-to-shell"@)
}

/// Bindings of the terminal in insert mode; most keys go to the terminal.
pub fn default_terminal_insert_bindings() -> (r: BindingMap)
    ensures
        r.wf(),
        r@ == default_terminal_insert_bindings_spec(),
{
    let mut map = BindingMap::new();
    map.insert("C-`".to_owned(), "switch-to-shell".to_owned());
    map
}

/// Bindings of the diff view.
pub open spec fn default_diff_bindings_spec() -> Map<Seq<char>, Seq<char>> {
    Map::<Seq<char>, Seq<char>>::empty()
        .insert("j"@, "move-down"@)
        .insert("Down"@, "move-down"@)
        .insert("k"@, "move-up"@)
        .insert("Up"@, "move-up"@)
        .insert("{"@, "prev-file"@)
        .insert("}"@, "next-file"@)
        .insert("Enter"@, "toggle-expand"@)
        .insert("o"@, "toggle-expand"@)
        .insert("c"@, "add-comment"@)
        .insert("C"@, "edit-comment"@)
        .insert("x"@, "delete-comment"@)
        .insert("n"@, "next-comment"@)
        .insert("N"@, "prev-comment"@)
        .insert("S"@, "submit-review-agent"@)
        .insert("r"@, "refresh-diff"@)
        .insert("f"@, "toggle-fullscreen"@)
        .insert("z"@, "toggle-fullscreen"@)
        .insert("Esc"@, "back-to-terminal"@)
        .insert("q"@, "back-to-terminal"@)
        .insert("t"@, "back-to-terminal"@)
}

/// Bindings of the diff view.
pub fn default_diff_bindings() -> (r: BindingMap)
    ensures
        r.wf(),
        r@ == default_diff_bindings_spec(),
{
    let mut map = BindingMap::new();
    map.insert("j".to_owned(), "move-down".to_owned());
    map.insert("Down".to_owned(), "move-down".to_owned());
    map.insert("k".to_owned(), "move-up".to_owned());
    map.insert("Up".to_owned(), "move-up".to_owned());
    map.insert("{".to_owned(), "prev-file".to_owned());
    map.insert("}".to_owned(), "next-file".to_owned());
    map.insert("Enter".to_owned(), "toggle-expand".to_owned());
    map.insert("o".to_owned(), "toggle-expand".to_owned());
    map.insert("c".to_owned(), "add-comment".to_owned());
    map.insert("C".to_owned(), "edit-comment".to_owned());
    map.insert("x".to_owned(), "delete-comment".to_owned());
    map.insert("n".to_owned(), "next-comment".to_owned());
    map.insert("N".to_owned(), "prev-comment".to_owned());
    map.insert("S".to_owned(), "submit-review-agent".to_owned());
    map.insert("r".to_owned(), "refresh-diff".to_owned());
    map.insert("f".to_owned(), "toggle-fullscreen".to_owned());
    map.insert("z".to_owned(), "toggle-fullscreen".to_owned());
    map.insert("Esc".to_owned(), "back-to-terminal".to_owned());
    map.insert("q".to_owned(), "back-to-terminal".to_owned());
    map.insert("t".to_owned(), "back-to-terminal".to_owned());
    map
}

/// Bindings of the git status panel.
pub open spec fn default_git_status_bindings_spec() -> Map<Seq<char>, Seq<char>> {
    Map::<Seq<char>, Seq<char>>::empty()
        .insert("j"@, "move-down"@)
        .insert("Down"@, "move-down"@)
        .insert("k"@, "move-up"@)
        .insert("Up"@, "move-up"@)
        .insert("Enter"@, "toggle-or-open"@)
        .insert("o"@, "toggle-or-open"@)
        .insert("s"@, "stage-file"@)
        .insert("u"@, "unstage-file"@)
        .insert("S"@, "stage-all"@)
        .insert("U"@, "unstage-all"@)
        .insert("r"@, "refresh-status"@)
        .insert("Tab"@, "focus-diff"@)
        .insert("Esc"@, "focus-sidebar"@)
        .insert("q"@, "focus-sidebar"@)
}

/// Bindings of the git status panel.
pub fn default_git_status_bindings() -> (r: BindingMap)
    ensures
        r.wf(),
        r@ == default_git_status_bindings_spec(),
{
    let mut map = BindingMap::new();
    map.insert("j".to_owned(), "move-down".to_owned());
    map.insert("Down".to_owned(), "move-down".to_owned());
    map.insert("k".to_owned(), "move-up".to_owned());
    map.insert("Up".to_owned(), "move-up".to_owned());
    map.insert("Enter".to_owned(), "toggle-or-open".to_owned());
    map.insert("o".to_owned(), "toggle-or-open".to_owned());
    map.insert("s".to_owned(), "stage-file".to_owned());
    map.insert("u".to_owned(), "unstage-file".to_owned());
    map.insert("S".to_owned(), "stage-all".to_owned());
    map.insert("U".to_owned(), "unstage-all".to_owned());
    map.insert("r".to_owned(), "refresh-status".to_owned());
    map.insert("Tab".to_owned(), "focus-diff".to_owned());
    map.insert("Esc".to_owned(), "focus-sidebar".to_owned());
    map.insert("q".to_owned(), "focus-sidebar".to_owned());
    map
}

/// Bindings of the TODO popup.
pub open spec fn default_todo_bindings_spec() -> Map<Seq<char>, Seq<char>> {
    Map::<Seq<char>, Seq<char>>::empty()
        .insert("j"@, "move-down"@)
        .insert("Down"@, "move-down"@)
        .insert("k"@, "move-up"@)
        .insert("Up"@, "move-up"@)
        .insert("g"@, "goto-top"@)
        .insert("G"@, "goto-bottom"@)
        .insert("Space"@, "toggle-complete"@)
        .insert("n"@, "add-todo"@)
        .insert("N"@, "add-child-todo"@)
        .insert("e"@, "edit-title"@)
        .insert("E"@, "edit-description"@)
        .insert("x"@, "delete-todo"@)
        .insert("J"@, "move-todo-down"@)
        .insert("K"@, "move-todo-up"@)
        .insert(">"@, "indent-todo"@)
        .insert("<"@, "dedent-todo"@)
        .insert("H"@, "toggle-show-completed"@)
        .insert("r"@, "refresh-todos"@)
        .insert("Esc"@, "close-popup"@)
        .insert("q"@, "close-popup"@)
}

/// Bindings of the TODO popup.
pub fn default_todo_bindings() -> (r: BindingMap)
    ensures
        r.wf(),
        r@ == default_todo_bindings_spec(),
{
    let mut map = BindingMap::new();
    map.insert("j".to_owned(), "move-down".to_owned());
    map.insert("Down".to_owned(), "move-down".to_owned());
    map.insert("k".to_owned(), "move-up".to_owned());
    map.insert("Up".to_owned(), "move-up".to_owned());
    map.insert("g".to_owned(), "goto-top".to_owned());
    map.insert("G".to_owned(), "goto-bottom".to_owned());
    map.insert("Space".to_owned(), "toggle-complete".to_owned());
    map.insert("n".to_owned(), "add-todo".to_owned());
    map.insert("N".to_owned(), "add-child-todo".to_owned());
    map.insert("e".to_owned(), "edit-title".to_owned());
    map.insert("E".to_owned(), "edit-description".to_owned());
    map.insert("x".to_owned(), "delete-todo".to_owned());
    map.insert("J".to_owned(), "move-todo-down".to_owned());
    map.insert("K".to_owned(), "move-todo-up".to_owned());
    map.insert(">".to_owned(), "indent-todo".to_owned());
    map.insert("<".to_owned(), "dedent-todo".to_owned());
    map.insert("H".to_owned(), "toggle-show-completed".to_owned());
    map.insert("r".to_owned(), "refresh-todos".to_owned());
    map.insert("Esc".to_owned(), "close-popup".to_owned());
    map.insert("q".to_owned(), "close-popup".to_owned());
    map
}

/// Bindings of text input dialogs.
pub open spec fn default_dialog_text_bindings_spec() -> Map<Seq<char>, Seq<char>> {
    Map::<Seq<char>, Seq<char>>::empty()
        .insert("Enter"@, "submit"@)
        .insert("Esc"@, "cancel"@)
        .insert("S-Enter"@, "insert-newline"@)
}

/// Bindings of text input dialogs.
pub fn default_dialog_text_bindings() -> (r: BindingMap)
    ensures
        r.wf(),
        r@ == default_dialog_text_bindings_spec(),
{
    let mut map = BindingMap::new();
    map.insert("Enter".to_owned(), "submit".to_owned());
    map.insert("Esc".to_owned(), "cancel".to_owned());
    map.insert("S-Enter".to_owned(), "insert-newline".to_owned());
    map
}

/// Bindings of confirmation dialogs.
pub open spec fn default_dialog_confirm_bindings_spec() -> Map<Seq<char>, Seq<char>> {
    Map::<Seq<char>, Seq<char>>::empty()
        .insert("y"@, "confirm"@)
        .insert("n"@, "cancel"@)
        .insert("Enter"@, "confirm"@)
        .insert("Esc"@, "cancel"@)
}

/// Bindings of confirmation dialogs.
pub fn default_dialog_confirm_bindings() -> (r: BindingMap)
    ensures
        r.wf(),
        r@ == default_dialog_confirm_bindings_spec(),
{
    let mut map = BindingMap::new();
    map.insert("y".to_owned(), "confirm".to_owned());
    map.insert("n".to_owned(), "cancel".to_owned());
    map.insert("Enter".to_owned(), "confirm".to_owned());
    map.insert("Esc".to_owned(), "cancel".to_owned());
    map
}

/// Whether `s` begins with `p`, character by character.
pub open spec fn has_prefix(s: Seq<char>, p: Seq<char>) -> bool
    decreases p.len(),
{
    p.len() == 0 || (s.len() > 0 && s[0] == p[0] && has_prefix(s.drop_first(), p.drop_first()))
}

proof fn lemma_has_prefix(s: Seq<char>, p: Seq<char>)
    requires
        has_prefix(s, p),
    ensures
        p.is_prefix_of(s),
    decreases p.len(),
{
    if p.len() > 0 {
        lemma_has_prefix(s.drop_first(), p.drop_first());
        assert forall|i: int| 0 <= i < p.len() implies p[i] == s[i] by {
            if i > 0 {
                assert(p.drop_first()[i - 1] == s.drop_first()[i - 1]);
            }
        }
        assert(p =~= s.subrange(0, p.len() as int));
    }
}

/// What a binding may name: an action that `Action::from_str` reads (the
/// trimmed name is ASCII, and lower-cased it is an action's name), or a
/// switch to a repository.
pub open spec fn names_action(v: Seq<char>) -> bool {
    ||| is_ascii_text(trim_spec(v)) && action_for_name_spec(ascii_lower(trim_spec(v))) is Some
    ||| "switch-repo-"@.is_prefix_of(v)
}

/// Every binding of the table names an action.
pub open spec fn names_actions(m: Map<Seq<char>, Seq<char>>) -> bool {
    forall|k: Seq<char>| #[trigger] m.dom().contains(k) ==> names_action(m[k])
}

/// A plain action name names an action.
proof fn lemma_plain_action(v: Seq<char>)
    requires
        plain_name(v),
        v.len() > 0,
        action_for_name_spec(v) is Some,
    ensures
        names_action(v),
{
    lemma_plain_reads_back(v);
}

/// Adding the repository switches keeps a table naming actions.
proof fn lemma_repo_switches_name_actions(m: Map<Seq<char>, Seq<char>>, n: nat)
    requires
        names_actions(m),
    ensures
        names_actions(with_repo_switches(m, n)),
    decreases n,
{
    if n > 0 {
        lemma_repo_switches_name_actions(m, (n - 1) as nat);
        let v = "switch-repo-"@.push(digit_spec(n - 1));
        assert("switch-repo-"@ =~= v.subrange(0, "switch-repo-"@.len() as int));
    }
}

/// The default global bindings name actions.
proof fn lemma_global_names_actions()
    ensures
        names_actions(default_global_bindings_spec()),
{

}

/// The default prefix bindings name actions.
proof fn lemma_prefix_names_actions()
    ensures
        names_actions(default_prefix_bindings_spec()),
{
    reveal_with_fuel(plain_name, 25);
    reveal_strlit("focus-branches");
    lemma_plain_action("focus-branches"@);
    reveal_strlit("focus-sessions");
    lemma_plain_action("focus-sessions"@);
    reveal_strlit("focus-terminal");
    lemma_plain_action("focus-terminal"@);
    reveal_strlit("create-session");
    lemma_plain_action("create-session"@);
    reveal_strlit("add-worktree");
    lemma_plain_action("add-worktree"@);
    reveal_strlit("delete-current");
    lemma_plain_action("delete-current"@);
    reveal_strlit("refresh-all");
    lemma_plain_action("refresh-all"@);
    reveal_strlit("toggle-fullscreen");
    lemma_plain_action("toggle-fullscreen"@);
    reveal_strlit("terminal-normal-mode");
    lemma_plain_action("terminal-normal-mode"@);
    reveal_strlit("focus-sidebar");
    lemma_plain_action("focus-sidebar"@);
    reveal_strlit("focus-git-status");
    lemma_plain_action("focus-git-status"@);
    reveal_strlit("focus-diff");
    lemma_plain_action("focus-diff"@);
    reveal_strlit("open-todo");
    lemma_plain_action("open-todo"@);
    reveal_strlit("quit");
    lemma_plain_action("quit"@);
    let base = Map::<Seq<char>, Seq<char>>::empty()
            .insert("b"@, "focus-branches"@)
            .insert("s"@, "focus-sessions"@)
            .insert("t"@, "focus-terminal"@)
            .insert("n"@, "create-session"@)
            .insert("a"@, "add-worktree"@)
            .insert("d"@, "delete-current"@)
            .insert("r"@, "refresh-all"@)
            .insert("f"@, "toggle-fullscreen"@)
            .insert("z"@, "toggle-fullscreen"@)
            .insert("["@, "terminal-normal-mode"@)
            .insert("w"@, "focus-sidebar"@)
            .insert("g"@, "focus-git-status"@)
            .insert("v"@, "focus-diff"@)
            .insert("o"@, "open-todo"@)
            .insert("q"@, "quit"@);
    assert(names_actions(base));
    lemma_repo_switches_name_actions(base, 9);
}

/// The default sidebar bindings name actions.
proof fn lemma_sidebar_names_actions()
    ensures
        names_actions(default_sidebar_bindings_spec()),
{
    reveal_with_fuel(plain_name, 25);
    reveal_strlit("focus-next");
    lemma_plain_action("focus-next"@);
    reveal_strlit("focus-prev");
    lemma_plain_action("focus-prev"@);
    reveal_strlit("move-down");
    lemma_plain_action("move-down"@);
    reveal_strlit("move-up");
    lemma_plain_action("move-up"@);
    reveal_strlit("select");
    lemma_plain_action("select"@);
    reveal_strlit("toggle-expand");
    lemma_plain_action("toggle-expand"@);
    reveal_strlit("toggle-tree-view");
    lemma_plain_action("toggle-tree-view"@);
    reveal_strlit("focus-git-status");
    lemma_plain_action("focus-git-status"@);
    reveal_strlit("create-session");
    lemma_plain_action("create-session"@);
    reveal_strlit("add-worktree");
    lemma_plain_action("add-worktree"@);
    reveal_strlit("delete-current");
    lemma_plain_action("delete-current"@);
    reveal_strlit("rename-session");
    lemma_plain_action("rename-session"@);
    reveal_strlit("refresh-all");
    lemma_plain_action("refresh-all"@);
    reveal_strlit("quit");
    lemma_plain_action("quit"@);
    reveal_strlit("toggle-diff-view");
    lemma_plain_action("toggle-diff-view"@);
    reveal_strlit("switch-repo-");
    reveal_with_fuel(has_prefix, 13);
    reveal_strlit("switch-repo-0");
    lemma_has_prefix("switch-repo-0"@, "switch-repo-"@);
    reveal_strlit("switch-repo-1");
    lemma_has_prefix("switch-repo-1"@, "switch-repo-"@);
    reveal_strlit("switch-repo-2");
    lemma_has_prefix("switch-repo-2"@, "switch-repo-"@);
    reveal_strlit("switch-repo-3");
    lemma_has_prefix("switch-repo-3"@, "switch-repo-"@);
    reveal_strlit("switch-repo-4");
    lemma_has_prefix("switch-repo-4"@, "switch-repo-"@);
    reveal_strlit("switch-repo-5");
    lemma_has_prefix("switch-repo-5"@, "switch-repo-"@);
    reveal_strlit("switch-repo-6");
    lemma_has_prefix("switch-repo-6"@, "switch-repo-"@);
    reveal_strlit("switch-repo-7");
    lemma_has_prefix("switch-repo-7"@, "switch-repo-"@);
    reveal_strlit("switch-repo-8");
    lemma_has_prefix("switch-repo-8"@, "switch-repo-"@);
}

/// The default terminal normal bindings name actions.
proof fn lemma_terminal_normal_names_actions()
    ensures
        names_actions(default_terminal_normal_bindings_spec()),
{
    reveal_with_fuel(plain_name, 25);
    reveal_strlit("toggle-fullscreen");
    lemma_plain_action("toggle-fullscreen"@);
    reveal_strlit("exit-fullscreen");
    lemma_plain_action("exit-fullscreen"@);
    reveal_strlit("insert-mode");
    lemma_plain_action("insert-mode"@);
    reveal_strlit("scroll-up");
    lemma_plain_action("scroll-up"@);
    reveal_strlit("scroll-down");
    lemma_plain_action("scroll-down"@);
    reveal_strlit("scroll-half-page-up");
    lemma_plain_action("scroll-half-page-up"@);
    reveal_strlit("scroll-half-page-down");
    lemma_plain_action("scroll-half-page-down"@);
    reveal_strlit("scroll-top");
    lemma_plain_action("scroll-top"@);
    reveal_strlit("scroll-bottom");
    lemma_plain_action("scroll-bottom"@);
    reveal_strlit("exit-terminal");
    lemma_plain_action("exit-terminal"@);
}

/// The default terminal insert bindings name actions.
proof fn lemma_terminal_insert_names_actions()
    ensures
        names_actions(default_terminal_insert_bindings_spec()),
{
    reveal_with_fuel(plain_name, 25);
    reveal_strlit("switch-to-shell");
    lemma_plain_action("switch-to-shell"@);
}

/// The default diff bindings name actions.
proof fn lemma_diff_names_actions()
    ensures
        names_actions(default_diff_bindings_spec()),
{
    reveal_with_fuel(plain_name, 25);
    reveal_strlit("move-down");
    lemma_plain_action("move-down"@);
    reveal_strlit("move-up");
    lemma_plain_action("move-up"@);
    reveal_strlit("prev-file");
    lemma_plain_action("prev-file"@);
    reveal_strlit("next-file");
    lemma_plain_action("next-file"@);
    reveal_strlit("toggle-expand");
    lemma_plain_action("toggle-expand"@);
    reveal_strlit("add-comment");
    lemma_plain_action("add-comment"@);
    reveal_strlit("edit-comment");
    lemma_plain_action("edit-comment"@);
    reveal_strlit("delete-comment");
    lemma_plain_action("delete-comment"@);
    reveal_strlit("next-comment");
    lemma_plain_action("next-comment"@);
    reveal_strlit("prev-comment");
    lemma_plain_action("prev-comment"@);
    reveal_strlit("submit-review-agent");
    lemma_plain_action("submit-review-agent"@);
    reveal_strlit("refresh-diff");
    lemma_plain_action("refresh-diff"@);
    reveal_strlit("toggle-fullscreen");
    lemma_plain_action("toggle-fullscreen"@);
    reveal_strlit("back-to-terminal");
    lemma_plain_action("back-to-terminal"@);
}

/// The default git status bindings name actions.
proof fn lemma_git_status_names_actions()
    ensures
        names_actions(default_git_status_bindings_spec()),
{
    reveal_with_fuel(plain_name, 25);
    reveal_strlit("move-down");
    lemma_plain_action("move-down"@);
    reveal_strlit("move-up");
    lemma_plain_action("move-up"@);
    reveal_strlit("toggle-or-open");
    lemma_plain_action("toggle-or-open"@);
    reveal_strlit("stage-file");
    lemma_plain_action("stage-file"@);
    reveal_strlit("unstage-file");
    lemma_plain_action("unstage-file"@);
    reveal_strlit("stage-all");
    lemma_plain_action("stage-all"@);
    reveal_strlit("unstage-all");
    lemma_plain_action("unstage-all"@);
    reveal_strlit("refresh-status");
    lemma_plain_action("refresh-status"@);
    reveal_strlit("focus-diff");
    lemma_plain_action("focus-diff"@);
    reveal_strlit("focus-sidebar");
    lemma_plain_action("focus-sidebar"@);
}

/// The default todo bindings name actions.
proof fn lemma_todo_names_actions()
    ensures
        names_actions(default_todo_bindings_spec()),
{
    reveal_with_fuel(plain_name, 25);
    reveal_strlit("move-down");
    lemma_plain_action("move-down"@);
    reveal_strlit("move-up");
    lemma_plain_action("move-up"@);
    reveal_strlit("goto-top");
    lemma_plain_action("goto-top"@);
    reveal_strlit("goto-bottom");
    lemma_plain_action("goto-bottom"@);
    reveal_strlit("toggle-complete");
    lemma_plain_action("toggle-complete"@);
    reveal_strlit("add-todo");
    lemma_plain_action("add-todo"@);
    reveal_strlit("add-child-todo");
    lemma_plain_action("add-child-todo"@);
    reveal_strlit("edit-title");
    lemma_plain_action("edit-title"@);
    reveal_strlit("edit-description");
    lemma_plain_action("edit-description"@);
    reveal_strlit("delete-todo");
    lemma_plain_action("delete-todo"@);
    reveal_strlit("move-todo-down");
    lemma_plain_action("move-todo-down"@);
    reveal_strlit("move-todo-up");
    lemma_plain_action("move-todo-up"@);
    reveal_strlit("indent-todo");
    lemma_plain_action("indent-todo"@);
    reveal_strlit("dedent-todo");
    lemma_plain_action("dedent-todo"@);
    reveal_strlit("toggle-show-completed");
    lemma_plain_action("toggle-show-completed"@);
    reveal_strlit("refresh-todos");
    lemma_plain_action("refresh-todos"@);
    reveal_strlit("close-popup");
    lemma_plain_action("close-popup"@);
}

/// The default dialog text bindings name actions.
proof fn lemma_dialog_text_names_actions()
    ensures
        names_actions(default_dialog_text_bindings_spec()),
{
    reveal_with_fuel(plain_name, 25);
    reveal_strlit("submit");
    lemma_plain_action("submit"@);
    reveal_strlit("cancel");
    lemma_plain_action("cancel"@);
    reveal_strlit("insert-newline");
    lemma_plain_action("insert-newline"@);
}

/// The default dialog confirm bindings name actions.
proof fn lemma_dialog_confirm_names_actions()
    ensures
        names_actions(default_dialog_confirm_bindings_spec()),
{
    reveal_with_fuel(plain_name, 25);
    reveal_strlit("confirm");
    lemma_plain_action("confirm"@);
    reveal_strlit("cancel");
    lemma_plain_action("cancel"@);
}

/// Every default binding names an action that `Action::from_str` reads, or
/// a switch to a repository.
pub proof fn law_default_bindings_name_actions(b: Bindings)
    requires
        default_bindings_spec(b),
    ensures
        names_actions(b.global@),
        names_actions(b.prefix@),
        names_actions(b.sidebar@),
        names_actions(b.terminal_normal@),
        names_actions(b.terminal_insert@),
        names_actions(b.diff@),
        names_actions(b.git_status@),
        names_actions(b.todo@),
        names_actions(b.dialog_text@),
        names_actions(b.dialog_confirm@),
{
    lemma_global_names_actions();
    lemma_prefix_names_actions();
    lemma_sidebar_names_actions();
    lemma_terminal_normal_names_actions();
    lemma_terminal_insert_names_actions();
    lemma_diff_names_actions();
    lemma_git_status_names_actions();
    lemma_todo_names_actions();
    lemma_dialog_text_names_actions();
    lemma_dialog_confirm_names_actions();
}

/// The switch to repository `i` (counted from 0).
pub open spec fn repo_switch(i: int) -> Seq<char> {
    "switch-repo-"@.push(digit_spec(i))
}

/// The repository switches bind digit `i` to repository `i - 1`, for each
/// digit up to `n`.
proof fn lemma_repo_switch_keys(m: Map<Seq<char>, Seq<char>>, n: nat, i: int)
    requires
        1 <= i <= n <= 9,
    ensures
        with_repo_switches(m, n).dom().contains(seq![digit_spec(i)]),
        with_repo_switches(m, n)[seq![digit_spec(i)]] == repo_switch(i - 1),
    decreases n,
{
    if i < n {
        lemma_repo_switch_keys(m, (n - 1) as nat, i);
        assert(seq![digit_spec(n as int)][0] != seq![digit_spec(i)][0]);
    }
}

/// In the sidebar table, digit `i` switches to repository `i - 1`.
proof fn lemma_sidebar_digit(i: int)
    requires
        1 <= i <= 9,
    ensures
        default_sidebar_bindings_spec().dom().contains(seq![digit_spec(i)]),
        default_sidebar_bindings_spec()[seq![digit_spec(i)]] == repo_switch(i - 1),
{
    reveal_strlit("switch-repo-");
    reveal_strlit("1");
    reveal_strlit("2");
    reveal_strlit("3");
    reveal_strlit("4");
    reveal_strlit("5");
    reveal_strlit("6");
    reveal_strlit("7");
    reveal_strlit("8");
    reveal_strlit("9");
    reveal_strlit("Tab");
    reveal_strlit("S-Tab");
    reveal_strlit("Esc");
    reveal_strlit("j");
    reveal_strlit("Down");
    reveal_strlit("k");
    reveal_strlit("Up");
    reveal_strlit("Enter");
    reveal_strlit("o");
    reveal_strlit("T");
    reveal_strlit("g");
    reveal_strlit("n");
    reveal_strlit("a");
    reveal_strlit("d");
    reveal_strlit("x");
    reveal_strlit("R");
    reveal_strlit("r");
    reveal_strlit("q");
    reveal_strlit("t");
    reveal_strlit("switch-repo-0");
    reveal_strlit("switch-repo-1");
    reveal_strlit("switch-repo-2");
    reveal_strlit("switch-repo-3");
    reveal_strlit("switch-repo-4");
    reveal_strlit("switch-repo-5");
    reveal_strlit("switch-repo-6");
    reveal_strlit("switch-repo-7");
    reveal_strlit("switch-repo-8");
    assert("1"@.len() == 1 && "1"@[0] == '1');
    assert("2"@.len() == 1 && "2"@[0] == '2');
    assert("3"@.len() == 1 && "3"@[0] == '3');
    assert("4"@.len() == 1 && "4"@[0] == '4');
    assert("5"@.len() == 1 && "5"@[0] == '5');
    assert("6"@.len() == 1 && "6"@[0] == '6');
    assert("7"@.len() == 1 && "7"@[0] == '7');
    assert("8"@.len() == 1 && "8"@[0] == '8');
    assert("9"@.len() == 1 && "9"@[0] == '9');
    assert("Tab"@.len() == 3 && "Tab"@[0] == 'T');
    assert("S-Tab"@.len() == 5 && "S-Tab"@[0] == 'S');
    assert("Esc"@.len() == 3 && "Esc"@[0] == 'E');
    assert("j"@.len() == 1 && "j"@[0] == 'j');
    assert("Down"@.len() == 4 && "Down"@[0] == 'D');
    assert("k"@.len() == 1 && "k"@[0] == 'k');
    assert("Up"@.len() == 2 && "Up"@[0] == 'U');
    assert("Enter"@.len() == 5 && "Enter"@[0] == 'E');
    assert("o"@.len() == 1 && "o"@[0] == 'o');
    assert("T"@.len() == 1 && "T"@[0] == 'T');
    assert("g"@.len() == 1 && "g"@[0] == 'g');
    assert("n"@.len() == 1 && "n"@[0] == 'n');
    assert("a"@.len() == 1 && "a"@[0] == 'a');
    assert("d"@.len() == 1 && "d"@[0] == 'd');
    assert("x"@.len() == 1 && "x"@[0] == 'x');
    assert("R"@.len() == 1 && "R"@[0] == 'R');
    assert("r"@.len() == 1 && "r"@[0] == 'r');
    assert("q"@.len() == 1 && "q"@[0] == 'q');
    assert("t"@.len() == 1 && "t"@[0] == 't');
    if i == 1 {
        assert(seq![digit_spec(i)] =~= "1"@);
        assert(repo_switch(i - 1) =~= "switch-repo-0"@);
    } else if i == 2 {
        assert(seq![digit_spec(i)] =~= "2"@);
        assert(repo_switch(i - 1) =~= "switch-repo-1"@);
    } else if i == 3 {
        assert(seq![digit_spec(i)] =~= "3"@);
        assert(repo_switch(i - 1) =~= "switch-repo-2"@);
    } else if i == 4 {
        assert(seq![digit_spec(i)] =~= "4"@);
        assert(repo_switch(i - 1) =~= "switch-repo-3"@);
    } else if i == 5 {
        assert(seq![digit_spec(i)] =~= "5"@);
        assert(repo_switch(i - 1) =~= "switch-repo-4"@);
    } else if i == 6 {
        assert(seq![digit_spec(i)] =~= "6"@);
        assert(repo_switch(i - 1) =~= "switch-repo-5"@);
    } else if i == 7 {
        assert(seq![digit_spec(i)] =~= "7"@);
        assert(repo_switch(i - 1) =~= "switch-repo-6"@);
    } else if i == 8 {
        assert(seq![digit_spec(i)] =~= "8"@);
        assert(repo_switch(i - 1) =~= "switch-repo-7"@);
    } else if i == 9 {
        assert(seq![digit_spec(i)] =~= "9"@);
        assert(repo_switch(i - 1) =~= "switch-repo-8"@);
    }
}

/// The digits switch repositories by default: after the prefix key and in
/// the sidebar, digit `i` (1 to 9) switches to repository `i - 1`; and there
/// are no global bindings.
pub proof fn law_default_digits_switch_repos(b: Bindings)
    requires
        default_bindings_spec(b),
    ensures
        b.global@ == Map::<Seq<char>, Seq<char>>::empty(),
        forall|i: int|
            1 <= i <= 9 ==> {
                &&& b.prefix@.dom().contains(#[trigger] seq![digit_spec(i)])
                &&& b.prefix@[seq![digit_spec(i)]] == repo_switch(i - 1)
                &&& b.sidebar@.dom().contains(seq![digit_spec(i)])
                &&& b.sidebar@[seq![digit_spec(i)]] == repo_switch(i - 1)
            },
{
    assert forall|i: int| 1 <= i <= 9 implies {
        &&& b.prefix@.dom().contains(#[trigger] seq![digit_spec(i)])
        &&& b.prefix@[seq![digit_spec(i)]] == repo_switch(i - 1)
        &&& b.sidebar@.dom().contains(seq![digit_spec(i)])
        &&& b.sidebar@[seq![digit_spec(i)]] == repo_switch(i - 1)
    } by {
        lemma_repo_switch_keys(default_prefix_base(), 9, i);
        lemma_sidebar_digit(i);
    }
}

} // verus!
