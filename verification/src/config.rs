//! The configuration: prefix key, options, UI settings and the binding table
//! of every input context, with the rules for filling in defaults.

use vstd::prelude::*;
use crate::binding_map::{BindingMap, map_of, unique_keys, lemma_map_of_dom};
use crate::text::concat;
use crate::defaults::{
    default_config,
    is_default_config,
    default_global_bindings_spec,
    default_prefix_bindings_spec,
    default_sidebar_bindings_spec,
    default_terminal_normal_bindings_spec,
    default_terminal_insert_bindings_spec,
    default_diff_bindings_spec,
    default_git_status_bindings_spec,
    default_todo_bindings_spec,
    default_dialog_text_bindings_spec,
    default_dialog_confirm_bindings_spec,
};

verus! {

/// Errors of configuration handling.
#[derive(Debug, Clone, PartialEq, Eq)]
pub enum ConfigError {
    /// A command or value was rejected; the message says why.
    Custom(String),
    /// The configuration file could not be parsed.
    Parse(String),
    /// The configuration file could not be read or written.
    Io(String),
}

/// The prefix key (like tmux's prefix).
#[derive(Debug, Clone)]
pub struct PrefixConfig {
    pub key: String,
}

/// Feature switches.
#[derive(Debug, Clone, Copy, PartialEq, Eq, Structural)]
pub struct Options {
    pub tree_view_enabled: bool,
    pub git_panel_enabled: bool,
    pub mouse_enabled: bool,
    pub fullscreen_on_connect: bool,
    pub show_completed_todos: bool,
}

/// Layout settings.
#[derive(Debug, Clone, Copy, PartialEq, Eq, Structural)]
pub struct UiConfig {
    pub show_borders: bool,
    pub sidebar_width: u16,
    pub terminal_scrollback: usize,
}

/// The binding table of every input context.
#[derive(Debug, Clone)]
pub struct Bindings {
    pub global: BindingMap,
    pub prefix: BindingMap,
    pub sidebar: BindingMap,
    pub terminal_normal: BindingMap,
    pub terminal_insert: BindingMap,
    pub diff: BindingMap,
    pub git_status: BindingMap,
    pub todo: BindingMap,
    pub dialog_text: BindingMap,
    pub dialog_confirm: BindingMap,
}

impl Bindings {
    /// Every table is well formed.
    pub open spec fn wf(&self) -> bool {
        &&& self.global.wf()
        &&& self.prefix.wf()
        &&& self.sidebar.wf()
        &&& self.terminal_normal.wf()
        &&& self.terminal_insert.wf()
        &&& self.diff.wf()
        &&& self.git_status.wf()
        &&& self.todo.wf()
        &&& self.dialog_text.wf()
        &&& self.dialog_confirm.wf()
    }
}

/// The whole configuration.
#[derive(Debug, Clone)]
pub struct Config {
    pub prefix: PrefixConfig,
    pub options: Options,
    pub ui: UiConfig,
    pub bindings: Bindings,
    /// Further configuration files to read.
    pub source: Vec<String>,
}

impl Config {
    /// The binding tables are well formed.
    pub open spec fn wf(&self) -> bool {
        self.bindings.wf()
    }
}

/// The bindings after filling in defaults: every user binding is kept, and every
/// default binding whose key the user did not bind is added.
pub open spec fn merge_bindings_spec(
    user: Map<Seq<char>, Seq<char>>,
    defaults: Map<Seq<char>, Seq<char>>,
) -> Map<Seq<char>, Seq<char>> {
    defaults.union_prefer_right(user)
}

/// Add to `user_map` the default bindings of keys it does not bind.
pub fn merge_binding_map(user_map: &mut BindingMap, defaults: &BindingMap)
    requires
        old(user_map).wf(),
        defaults.wf(),
    ensures
        final(user_map).wf(),
        final(user_map)@ == merge_bindings_spec(old(user_map)@, defaults@),
{
    let entries = defaults.entries();
    let ghost user0 = user_map@;
    let mut i: usize = 0;
    assert(map_of(entries@.take(0)).union_prefer_right(user0) =~= user0) by {
        assert(entries@.take(0) =~= Seq::<(String, String)>::empty());
    }
    while i < entries.len()
        invariant
            i <= entries@.len(),
            unique_keys(entries@),
            map_of(entries@) == defaults@,
            user_map.wf(),
            user_map@ == map_of(entries@.take(i as int)).union_prefer_right(user0),
        decreases entries.len() - i,
    {
        let ghost k = entries@[i as int].0@;
        let ghost v = entries@[i as int].1@;
        let ghost before = map_of(entries@.take(i as int));
        proof {
            assert(entries@.take(i + 1).drop_last() =~= entries@.take(i as int));
            assert(map_of(entries@.take(i + 1)) == before.insert(k, v));
            lemma_map_of_dom(entries@.take(i as int), k);
            if before.contains_key(k) {
                let j = choose|j: int|
                    0 <= j < entries@.take(i as int).len() && (#[trigger] entries@.take(
                        i as int,
                    )[j]).0@ == k;
                assert(entries@.take(i as int)[j] == entries@[j]);
            }
            assert(!before.contains_key(k));
        }
        user_map.insert_if_absent(entries[i].0.as_str(), entries[i].1.as_str());
        proof {
            assert(user_map@ =~= before.insert(k, v).union_prefer_right(user0));
        }
        i = i + 1;
    }
    assert(entries@.take(entries.len() as int) =~= entries@);
}

/// What loading found where the configuration file should be.
pub enum ConfigSource {
    /// There is no file (or it could not be read).
    Missing,
    /// The file held this configuration.
    Parsed(Config),
    /// The file could not be parsed; the parser's message.
    Unparsable(String),
}

/// A path with one relative part added, as `PathBuf::join` does on Unix: a
/// `/` goes between them unless the path is empty or already ends in one.
pub open spec fn path_join(base: Seq<char>, part: Seq<char>) -> Seq<char> {
    if base.len() == 0 || base.last() == '/' {
        base + part
    } else {
        base + seq!['/'] + part
    }
}

/// The configuration directory for a home directory: `<home>/.amux`.
pub open spec fn config_dir_spec(home: Seq<char>) -> Seq<char> {
    path_join(home, ".amux"@)
}

/// The configuration file for a home directory: `<home>/.amux/config.toml`.
pub open spec fn config_file_spec(home: Seq<char>) -> Seq<char> {
    path_join(config_dir_spec(home), "config.toml"@)
}

fn join_path(base: &str, part: &str) -> (r: String)
    ensures
        r@ == path_join(base@, part@),
{
    let n = base.unicode_len();
    if n == 0 || base.get_char(n - 1) == '/' {
        concat(base, part)
    } else {
        let with_slash = concat(base, "/");
        proof {
            reveal_strlit("/");
        }
        concat(with_slash.as_str(), part)
    }
}

/// The configuration directory under the given home directory.
pub fn config_dir(home: &str) -> (r: String)
    ensures
        r@ == config_dir_spec(home@),
{
    join_path(home, ".amux")
}

/// The configuration file under the given home directory.
pub fn config_file(home: &str) -> (r: String)
    ensures
        r@ == config_file_spec(home@),
{
    let dir = config_dir(home);
    join_path(dir.as_str(), "config.toml")
}

/// The configuration to use given what loading found: the parsed file, or the
/// defaults when the file is missing or cannot be parsed.
pub fn load_or_default(found: ConfigSource) -> (r: Result<Config, ConfigError>)
    ensures
        match found {
            ConfigSource::Parsed(c) => r == Ok::<Config, ConfigError>(c),
            _ => r matches Ok(c) && is_default_config(c),
        },
{
    match found {
        ConfigSource::Parsed(c) => Ok(c),
        ConfigSource::Missing => Ok(default_config()),
        ConfigSource::Unparsable(_) => Ok(default_config()),
    }
}

impl Config {
    /// The configuration to use given what loading found (see [`load_or_default`]).
    pub fn load_or_default(found: ConfigSource) -> (r: Result<Config, ConfigError>)
        ensures
            match found {
                ConfigSource::Parsed(c) => r == Ok::<Config, ConfigError>(c),
                _ => r matches Ok(c) && is_default_config(c),
            },
    {
        load_or_default(found)
    }

    /// Fill in defaults for what the configuration leaves out: an empty prefix key
    /// becomes the default one, an empty global table the default one, and every
    /// other table gains the default bindings of keys it does not bind.
    pub fn merge_with_defaults(&mut self)
        requires
            old(self).wf(),
        ensures
            final(self).wf(),
            final(self).prefix.key@ == (if old(self).prefix.key@.len() == 0 {
                "C-s"@
            } else {
                old(self).prefix.key@
            }),
            final(self).options == old(self).options,
            final(self).ui == old(self).ui,
            final(self).source == old(self).source,
            final(self).bindings.global@ == (if old(self).bindings.global@.dom().len() == 0 {
                default_global_bindings_spec()
            } else {
                old(self).bindings.global@
            }),
            final(self).bindings.prefix@ == merge_bindings_spec(
                old(self).bindings.prefix@,
                default_prefix_bindings_spec(),
            ),
            final(self).bindings.sidebar@ == merge_bindings_spec(
                old(self).bindings.sidebar@,
                default_sidebar_bindings_spec(),
            ),
            final(self).bindings.terminal_normal@ == merge_bindings_spec(
                old(self).bindings.terminal_normal@,
                default_terminal_normal_bindings_spec(),
            ),
            final(self).bindings.terminal_insert@ == merge_bindings_spec(
                old(self).bindings.terminal_insert@,
                default_terminal_insert_bindings_spec(),
            ),
            final(self).bindings.diff@ == merge_bindings_spec(
                old(self).bindings.diff@,
                default_diff_bindings_spec(),
            ),
            final(self).bindings.git_status@ == merge_bindings_spec(
                old(self).bindings.git_status@,
                default_git_status_bindings_spec(),
            ),
            final(self).bindings.todo@ == merge_bindings_spec(
                old(self).bindings.todo@,
                default_todo_bindings_spec(),
            ),
            final(self).bindings.dialog_text@ == merge_bindings_spec(
                old(self).bindings.dialog_text@,
                default_dialog_text_bindings_spec(),
            ),
            final(self).bindings.dialog_confirm@ == merge_bindings_spec(
                old(self).bindings.dialog_confirm@,
                default_dialog_confirm_bindings_spec(),
            ),
    {
        let defaults = default_config();
        // Prefix key: the user's takes precedence.
        if self.prefix.key.as_str().is_empty() {
            self.prefix.key = defaults.prefix.key;
        }
        let default_bindings = defaults.bindings;
        if self.bindings.global.is_empty() {
            self.bindings.global = default_bindings.global;
        }
        if self.bindings.prefix.is_empty() {
            let ghost user = self.bindings.prefix@;
            self.bindings.prefix = default_bindings.prefix;
            assert(self.bindings.prefix@ =~= merge_bindings_spec(user, default_prefix_bindings_spec()));
        } else {
            merge_binding_map(&mut self.bindings.prefix, &default_bindings.prefix);
        }
        merge_binding_map(&mut self.bindings.sidebar, &default_bindings.sidebar);
        merge_binding_map(&mut self.bindings.terminal_normal, &default_bindings.terminal_normal);
        merge_binding_map(&mut self.bindings.terminal_insert, &default_bindings.terminal_insert);
        merge_binding_map(&mut self.bindings.diff, &default_bindings.diff);
        merge_binding_map(&mut self.bindings.git_status, &default_bindings.git_status);
        merge_binding_map(&mut self.bindings.todo, &default_bindings.todo);
        merge_binding_map(&mut self.bindings.dialog_text, &default_bindings.dialog_text);
        merge_binding_map(&mut self.bindings.dialog_confirm, &default_bindings.dialog_confirm);
    }
}

/// Filling in defaults keeps every user binding, and binds exactly the keys
/// that the user or the defaults bind.
pub proof fn law_merge_keeps_user_bindings(
    user: Map<Seq<char>, Seq<char>>,
    defaults: Map<Seq<char>, Seq<char>>,
)
    ensures
        forall|k: Seq<char>|
            #[trigger] user.contains_key(k) ==> merge_bindings_spec(user, defaults).contains_key(k)
                && merge_bindings_spec(user, defaults)[k] == user[k],
        forall|k: Seq<char>|
            !user.contains_key(k) && #[trigger] defaults.contains_key(k) ==> merge_bindings_spec(
                user,
                defaults,
            ).contains_key(k) && merge_bindings_spec(user, defaults)[k] == defaults[k],
        merge_bindings_spec(user, defaults).dom() == user.dom().union(defaults.dom()),
{
    assert(merge_bindings_spec(user, defaults).dom() =~= user.dom().union(defaults.dom()));
}

/// Filling in defaults twice is the same as filling them in once.
pub proof fn law_merge_idempotent(
    user: Map<Seq<char>, Seq<char>>,
    defaults: Map<Seq<char>, Seq<char>>,
)
    ensures
        merge_bindings_spec(merge_bindings_spec(user, defaults), defaults) == merge_bindings_spec(
            user,
            defaults,
        ),
{
    assert(merge_bindings_spec(merge_bindings_spec(user, defaults), defaults)
        =~= merge_bindings_spec(user, defaults));
}

/// Filling in defaults leaves the default bindings themselves unchanged.
pub proof fn law_merge_defaults_fixed(defaults: Map<Seq<char>, Seq<char>>)
    ensures
        merge_bindings_spec(defaults, defaults) == defaults,
{
    assert(merge_bindings_spec(defaults, defaults) =~= defaults);
}

} // verus!
