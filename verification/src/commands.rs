//! Runtime commands typed at the `:` prompt, such as `:set <option> <value>`,
//! `:bind [context] <key> <action>`, `:unbind [context] <key>` and
//! `:source <file>`.

use vstd::prelude::*;
use vstd::string::*;
use crate::config::ConfigError;
use crate::text::{
    all_white, is_white_space, join, join_spec, split_whitespace, str_eq, strings_view, trim, trim_end_spec,
    trim_spec, trim_start_spec, words_spec,
};

verus! {

/// A runtime command.
#[derive(Debug, Clone, PartialEq, Eq)]
pub enum RuntimeCommand {
    /// Set an option.
    SetOption { option: String, value: String },
    /// Bind a key, in a context or in the default one.
    Bind { context: Option<String>, key: String, action: String },
    /// Remove a key binding.
    Unbind { context: Option<String>, key: String },
    /// Change the prefix key.
    BindPrefix { key: String },
    /// Read commands from a file.
    Source { path: String },
    /// Write the configuration.
    Write,
    /// List the bindings, of one context or of all.
    ShowBindings { context: Option<String> },
    /// List the options.
    ShowOptions,
    /// Run an action.
    Exec { action: String },
    /// Show help.
    Help,
}

/// The value of a [`RuntimeCommand`].
pub enum CommandView {
    SetOption { option: Seq<char>, value: Seq<char> },
    Bind { context: Option<Seq<char>>, key: Seq<char>, action: Seq<char> },
    Unbind { context: Option<Seq<char>>, key: Seq<char> },
    BindPrefix { key: Seq<char> },
    Source { path: Seq<char> },
    Write,
    ShowBindings { context: Option<Seq<char>> },
    ShowOptions,
    Exec { action: Seq<char> },
    Help,
}

/// The view of an optional string.
pub open spec fn opt_view(o: Option<String>) -> Option<Seq<char>> {
    match o {
        Some(s) => Some(s@),
        None => None,
    }
}

impl View for RuntimeCommand {
    type V = CommandView;

    open spec fn view(&self) -> CommandView {
        match self {
            RuntimeCommand::SetOption { option, value } => CommandView::SetOption {
                option: option@,
                value: value@,
            },
            RuntimeCommand::Bind { context, key, action } => CommandView::Bind {
                context: opt_view(*context),
                key: key@,
                action: action@,
            },
            RuntimeCommand::Unbind { context, key } => CommandView::Unbind {
                context: opt_view(*context),
                key: key@,
            },
            RuntimeCommand::BindPrefix { key } => CommandView::BindPrefix { key: key@ },
            RuntimeCommand::Source { path } => CommandView::Source { path: path@ },
            RuntimeCommand::Write => CommandView::Write,
            RuntimeCommand::ShowBindings { context } => CommandView::ShowBindings {
                context: opt_view(*context),
            },
            RuntimeCommand::ShowOptions => CommandView::ShowOptions,
            RuntimeCommand::Exec { action } => CommandView::Exec { action: action@ },
            RuntimeCommand::Help => CommandView::Help,
        }
    }
}

/// `s` without one leading `:`, if it has one.
pub open spec fn strip_colon(s: Seq<char>) -> Seq<char> {
    if s.len() > 0 && s[0] == ':' {
        s.drop_first()
    } else {
        s
    }
}

/// The words of a command line: trimmed, without a leading `:`, split on white space.
pub open spec fn command_words(input: Seq<char>) -> Seq<Seq<char>> {
    words_spec(strip_colon(trim_spec(input)))
}

/// The command that the words denote, or the message of the error.
pub open spec fn parse_words_spec(parts: Seq<Seq<char>>) -> Result<CommandView, Seq<char>> {
    if parts.len() == 0 {
        Err("Empty command"@)
    } else {
        let cmd = parts[0];
        if cmd == "set"@ || cmd == "set-option"@ {
            if parts.len() < 3 {
                Err("Usage: set <option> <value>"@)
            } else {
                Ok(CommandView::SetOption { option: parts[1], value: join_spec(parts.skip(2), " "@) })
            }
        } else if cmd == "bind"@ || cmd == "bind-key"@ {
            if parts.len() < 3 {
                Err("Usage: bind [context] <key> <action>"@)
            } else if parts.len() == 3 {
                Ok(CommandView::Bind { context: None, key: parts[1], action: parts[2] })
            } else {
                Ok(
                    CommandView::Bind {
                        context: Some(parts[1]),
                        key: parts[2],
                        action: join_spec(parts.skip(3), " "@),
                    },
                )
            }
        } else if cmd == "unbind"@ || cmd == "unbind-key"@ {
            if parts.len() < 2 {
                Err("Usage: unbind [context] <key>"@)
            } else {
                Ok(
                    CommandView::Unbind {
                        context: if parts.len() > 2 {
                            Some(parts[1])
                        } else {
                            None
                        },
                        key: parts.last(),
                    },
                )
            }
        } else if cmd == "prefix"@ || cmd == "set-prefix"@ {
            if parts.len() < 2 {
                Err("Usage: prefix <key>"@)
            } else {
                Ok(CommandView::BindPrefix { key: parts[1] })
            }
        } else if cmd == "source"@ || cmd == "source-file"@ {
            if parts.len() < 2 {
                Err("Usage: source <file>"@)
            } else {
                Ok(CommandView::Source { path: parts[1] })
            }
        } else if cmd == "w"@ || cmd == "write"@ {
            Ok(CommandView::Write)
        } else if cmd == "list-keys"@ || cmd == "show-bindings"@ {
            Ok(
                CommandView::ShowBindings {
                    context: if parts.len() > 1 {
                        Some(parts[1])
                    } else {
                        None
                    },
                },
            )
        } else if cmd == "show-options"@ {
            Ok(CommandView::ShowOptions)
        } else if cmd == "exec"@ {
            if parts.len() < 2 {
                Err("Usage: exec <action>"@)
            } else {
                Ok(CommandView::Exec { action: join_spec(parts.skip(1), " "@) })
            }
        } else if cmd == "help"@ || cmd == "?"@ {
            Ok(CommandView::Help)
        } else {
            Err("Unknown command: "@ + cmd)
        }
    }
}

/// Whether a parse result matches the specified outcome: the command, or a
/// `Custom` error with the specified message.
pub open spec fn parse_result_matches(
    r: Result<RuntimeCommand, ConfigError>,
    expected: Result<CommandView, Seq<char>>,
) -> bool {
    match r {
        Ok(c) => expected == Ok::<CommandView, Seq<char>>(c@),
        Err(ConfigError::Custom(m)) => expected == Err::<CommandView, Seq<char>>(m@),
        Err(_) => false,
    }
}

/// `s` without one leading `:` (`str::strip_prefix(':').unwrap_or(s)`).
fn strip_colon_exec(s: &str) -> (r: &str)
    ensures
        r@ == strip_colon(s@),
{
    let n = s.unicode_len();
    if n > 0 && s.get_char(0) == ':' {
        let r = s.substring_char(1, n);
        assert(r@ =~= s@.drop_first());
        r
    } else {
        s
    }
}

/// The words from position `start` on, joined with single spaces.
fn join_tail(parts: &Vec<String>, start: usize) -> (r: String)
    requires
        start <= parts@.len(),
    ensures
        r@ == join_spec(strings_view(parts@).skip(start as int), " "@),
{
    let mut tail: Vec<String> = Vec::new();
    let mut i: usize = start;
    while i < parts.len()
        invariant
            start <= i <= parts@.len(),
            strings_view(tail@) == strings_view(parts@).subrange(start as int, i as int),
        decreases parts.len() - i,
    {
        let ghost before = strings_view(tail@);
        tail.push(parts[i].clone());
        assert(strings_view(tail@) =~= before.push(parts@[i as int]@));
        i = i + 1;
        assert(strings_view(tail@) =~= strings_view(parts@).subrange(start as int, i as int));
    }
    assert(strings_view(parts@).subrange(start as int, parts@.len() as int) =~= strings_view(
        parts@,
    ).skip(start as int));
    join(tail.as_slice(), " ")
}

fn custom(msg: &str) -> (r: ConfigError)
    ensures
        r matches ConfigError::Custom(m) && m@ == msg@,
{
    ConfigError::Custom(msg.to_owned())
}

impl RuntimeCommand {
    /// Parse a command line. Surrounding white space and one leading `:` are
    /// ignored; the first word names the command (aliases accepted), the rest
    /// are its arguments.
    pub fn parse(input: &str) -> (r: Result<Self, ConfigError>)
        ensures
            parse_result_matches(r, parse_words_spec(command_words(input@))),
    {
        let trimmed = trim(input);
        let stripped = strip_colon_exec(trimmed);
        let parts = split_whitespace(stripped);
        let ghost pv = strings_view(parts@);
        assert(pv == command_words(input@));
        if parts.len() == 0 {
            return Err(custom("Empty command"));
        }
        assert(pv[0] == parts@[0]@);
        let cmd = parts[0].as_str();
        if str_eq(cmd, "set") || str_eq(cmd, "set-option") {
            if parts.len() < 3 {
                return Err(custom("Usage: set <option> <value>"));
            }
            assert(pv[1] == parts@[1]@);
            Ok(RuntimeCommand::SetOption { option: parts[1].clone(), value: join_tail(&parts, 2) })
        } else if str_eq(cmd, "bind") || str_eq(cmd, "bind-key") {
            if parts.len() < 3 {
                return Err(custom("Usage: bind [context] <key> <action>"));
            }
            assert(pv[1] == parts@[1]@);
            assert(pv[2] == parts@[2]@);
            if parts.len() == 3 {
                Ok(
                    RuntimeCommand::Bind {
                        context: None,
                        key: parts[1].clone(),
                        action: parts[2].clone(),
                    },
                )
            } else {
                Ok(
                    RuntimeCommand::Bind {
                        context: Some(parts[1].clone()),
                        key: parts[2].clone(),
                        action: join_tail(&parts, 3),
                    },
                )
            }
        } else if str_eq(cmd, "unbind") || str_eq(cmd, "unbind-key") {
            if parts.len() < 2 {
                return Err(custom("Usage: unbind [context] <key>"));
            }
            assert(pv[1] == parts@[1]@);
            assert(pv.last() == parts@[parts@.len() - 1]@);
            let context = if parts.len() > 2 {
                Some(parts[1].clone())
            } else {
                None
            };
            Ok(RuntimeCommand::Unbind { context, key: parts[parts.len() - 1].clone() })
        } else if str_eq(cmd, "prefix") || str_eq(cmd, "set-prefix") {
            if parts.len() < 2 {
                return Err(custom("Usage: prefix <key>"));
            }
            assert(pv[1] == parts@[1]@);
            Ok(RuntimeCommand::BindPrefix { key: parts[1].clone() })
        } else if str_eq(cmd, "source") || str_eq(cmd, "source-file") {
            if parts.len() < 2 {
                return Err(custom("Usage: source <file>"));
            }
            assert(pv[1] == parts@[1]@);
            Ok(RuntimeCommand::Source { path: parts[1].clone() })
        } else if str_eq(cmd, "w") || str_eq(cmd, "write") {
            Ok(RuntimeCommand::Write)
        } else if str_eq(cmd, "list-keys") || str_eq(cmd, "show-bindings") {
            let context = if parts.len() > 1 {
                assert(pv[1] == parts@[1]@);
                Some(parts[1].clone())
            } else {
                None
            };
            Ok(RuntimeCommand::ShowBindings { context })
        } else if str_eq(cmd, "show-options") {
            Ok(RuntimeCommand::ShowOptions)
        } else if str_eq(cmd, "exec") {
            if parts.len() < 2 {
                return Err(custom("Usage: exec <action>"));
            }
            Ok(RuntimeCommand::Exec { action: join_tail(&parts, 1) })
        } else if str_eq(cmd, "help") || str_eq(cmd, "?") {
            Ok(RuntimeCommand::Help)
        } else {
            let mut msg = "Unknown command: ".to_owned();
            msg.append(cmd);
            Err(ConfigError::Custom(msg))
        }
    }
}

/// White space in front is skipped by trimming the start.
proof fn lemma_trim_start_white_prefix(w: Seq<char>, x: Seq<char>)
    requires
        all_white(w),
    ensures
        trim_start_spec(w + x) == trim_start_spec(x),
    decreases w.len(),
{
    if w.len() > 0 {
        assert(is_white_space(w[0]));
        assert((w + x)[0] == w[0]);
        assert((w + x).drop_first() =~= w.drop_first() + x);
        assert(all_white(w.drop_first())) by {
            assert forall|i: int| 0 <= i < w.drop_first().len() implies is_white_space(
                #[trigger] w.drop_first()[i],
            ) by {
                assert(w.drop_first()[i] == w[i + 1]);
            }
        }
        lemma_trim_start_white_prefix(w.drop_first(), x);
    } else {
        assert(w + x =~= x);
    }
}

/// White space behind is dropped by trimming the end.
proof fn lemma_trim_end_white_suffix(x: Seq<char>, q: Seq<char>)
    requires
        all_white(q),
    ensures
        trim_end_spec(x + q) == trim_end_spec(x),
    decreases q.len(),
{
    if q.len() > 0 {
        assert(is_white_space(q.last()));
        assert((x + q).last() == q.last());
        assert((x + q).drop_last() =~= x + q.drop_last());
        assert(all_white(q.drop_last())) by {
            assert forall|i: int| 0 <= i < q.drop_last().len() implies is_white_space(
                #[trigger] q.drop_last()[i],
            ) by {
                assert(q.drop_last()[i] == q[i]);
            }
        }
        lemma_trim_end_white_suffix(x, q.drop_last());
    } else {
        assert(x + q =~= x);
    }
}

/// Trimming the start of a text with white space added behind: the added
/// white space stays behind what is left, or everything goes.
proof fn lemma_trim_start_with_suffix(x: Seq<char>, q: Seq<char>)
    requires
        all_white(q),
    ensures
        trim_start_spec(x).len() > 0 ==> trim_start_spec(x + q) == trim_start_spec(x) + q,
        trim_start_spec(x).len() == 0 ==> trim_start_spec(x + q).len() == 0,
    decreases x.len(),
{
    if x.len() == 0 {
        assert(x + q =~= q);
        lemma_trim_start_white_prefix(q, Seq::<char>::empty());
        assert(q + Seq::<char>::empty() =~= q);
    } else if is_white_space(x[0]) {
        assert((x + q)[0] == x[0]);
        assert((x + q).drop_first() =~= x.drop_first() + q);
        lemma_trim_start_with_suffix(x.drop_first(), q);
    } else {
        assert((x + q)[0] == x[0]);
    }
}

/// Trimming the end keeps a start of the text.
proof fn lemma_trim_end_prefix(y: Seq<char>)
    ensures
        trim_end_spec(y).len() <= y.len(),
        trim_end_spec(y) =~= y.take(trim_end_spec(y).len() as int),
    decreases y.len(),
{
    if y.len() > 0 && is_white_space(y.last()) {
        lemma_trim_end_prefix(y.drop_last());
    }
}

/// Trimming the end of a text that starts with a character that is not white
/// space trims only what follows it.
proof fn lemma_trim_end_after_first(c: char, x: Seq<char>)
    requires
        !is_white_space(c),
    ensures
        trim_end_spec(seq![c] + x) == seq![c] + trim_end_spec(x),
    decreases x.len(),
{
    if x.len() > 0 && is_white_space(x.last()) {
        assert((seq![c] + x).last() == x.last());
        assert((seq![c] + x).drop_last() =~= seq![c] + x.drop_last());
        lemma_trim_end_after_first(c, x.drop_last());
    } else if x.len() == 0 {
        assert(seq![c] + x =~= seq![c]);
        assert(trim_end_spec(seq![c]) == seq![c]) by {
            assert(seq![c].last() == c);
        }
    } else {
        assert((seq![c] + x).last() == x.last());
    }
}

/// Text made of white space has no words.
proof fn lemma_words_of_white(w: Seq<char>)
    requires
        all_white(w),
    ensures
        words_spec(w) =~= Seq::<Seq<char>>::empty(),
    decreases w.len(),
{
    if w.len() > 0 {
        assert(is_white_space(w[w.len() - 1]));
        assert(all_white(w.drop_last())) by {
            assert forall|i: int| 0 <= i < w.drop_last().len() implies is_white_space(
                #[trigger] w.drop_last()[i],
            ) by {
                assert(w.drop_last()[i] == w[i]);
            }
        }
        lemma_words_of_white(w.drop_last());
    }
}

/// White space in front changes no word.
proof fn lemma_words_white_prefix(w: Seq<char>, x: Seq<char>)
    requires
        all_white(w),
    ensures
        words_spec(w + x) == words_spec(x),
    decreases x.len(),
{
    let s = w + x;
    if x.len() == 0 {
        assert(s =~= w);
        lemma_words_of_white(w);
    } else {
        assert(s.drop_last() =~= w + x.drop_last());
        assert(s.last() == x.last());
        lemma_words_white_prefix(w, x.drop_last());
        if x.len() >= 2 {
            assert(s[s.len() - 2] == x[x.len() - 2]);
        } else if s.len() >= 2 {
            assert(s[s.len() - 2] == w[w.len() - 1]);
        }
    }
}

/// White space behind changes no word.
proof fn lemma_words_trim_end(y: Seq<char>)
    ensures
        words_spec(trim_end_spec(y)) == words_spec(y),
    decreases y.len(),
{
    if y.len() > 0 && is_white_space(y.last()) {
        lemma_words_trim_end(y.drop_last());
    }
}

/// Trimming changes no word.
proof fn lemma_words_trim(y: Seq<char>)
    ensures
        words_spec(trim_spec(y)) == words_spec(y),
    decreases y.len(),
{
    lemma_words_trim_end(trim_start_spec(y));
    lemma_words_trim_start(y);
}

/// Trimming the start changes no word.
proof fn lemma_words_trim_start(y: Seq<char>)
    ensures
        words_spec(trim_start_spec(y)) == words_spec(y),
    decreases y.len(),
{
    if y.len() > 0 && is_white_space(y[0]) {
        lemma_words_trim_start(y.drop_first());
        let w = seq![y[0]];
        assert(all_white(w));
        assert(y =~= w + y.drop_first());
        lemma_words_white_prefix(w, y.drop_first());
    }
}

/// A command reads the same with white space around it, and with a `:` in
/// front when it has none: `parse` gives the same result on each form.
pub proof fn law_parse_ignores_colon_and_spaces(s: Seq<char>, before: Seq<char>, after: Seq<char>)
    requires
        all_white(before),
        all_white(after),
        !(trim_start_spec(s).len() > 0 && trim_start_spec(s)[0] == ':'),
    ensures
        command_words(before + s + after) == command_words(s),
        command_words(seq![':'] + s) == command_words(s),
{
    // White space around.
    assert(before + s + after =~= before + (s + after));
    lemma_trim_start_white_prefix(before, s + after);
    lemma_trim_start_with_suffix(s, after);
    if trim_start_spec(s).len() > 0 {
        lemma_trim_end_white_suffix(trim_start_spec(s), after);
    }
    assert(trim_spec(before + s + after) == trim_spec(s));
    // A colon in front.
    let t = trim_start_spec(s);
    lemma_trim_end_prefix(t);
    assert(strip_colon(trim_spec(s)) == trim_spec(s)) by {
        if trim_spec(s).len() > 0 {
            assert(trim_spec(s)[0] == t[0]);
        }
    }
    lemma_words_trim(s);
    assert(!is_white_space(':'));
    assert(trim_start_spec(seq![':'] + s) == seq![':'] + s) by {
        assert((seq![':'] + s)[0] == ':');
    }
    lemma_trim_end_after_first(':', s);
    assert(strip_colon(trim_spec(seq![':'] + s)) =~= trim_end_spec(s));
    lemma_words_trim_end(s);
}

/// The command names and their aliases.
pub open spec fn command_names() -> Seq<Seq<char>> {
    seq!["set"@, "set-option"@, "bind"@, "bind-key"@, "unbind"@, "unbind-key"@, "prefix"@, "set-prefix"@, "source"@, "source-file"@, "w"@, "write"@, "list-keys"@, "show-bindings"@, "show-options"@, "exec"@, "help"@, "?"@]
}

/// The lengths of the command names, and their letters where two of the
/// same length first differ: enough to tell any two apart.
proof fn lemma_command_name_letters()
    ensures
        "set"@.len() == 3,
        "set-option"@.len() == 10,
        "bind"@.len() == 4,
        "bind-key"@.len() == 8,
        "unbind"@.len() == 6,
        "unbind-key"@.len() == 10,
        "prefix"@.len() == 6,
        "set-prefix"@.len() == 10,
        "source"@.len() == 6,
        "source-file"@.len() == 11,
        "w"@.len() == 1,
        "write"@.len() == 5,
        "list-keys"@.len() == 9,
        "show-bindings"@.len() == 13,
        "show-options"@.len() == 12,
        "exec"@.len() == 4,
        "help"@.len() == 4,
        "?"@.len() == 1,
        "?"@[0] == '?',
        "bind"@[0] == 'b',
        "exec"@[0] == 'e',
        "help"@[0] == 'h',
        "prefix"@[0] == 'p',
        "set-option"@[0] == 's',
        "set-option"@[4] == 'o',
        "set-prefix"@[0] == 's',
        "set-prefix"@[4] == 'p',
        "source"@[0] == 's',
        "unbind"@[0] == 'u',
        "unbind-key"@[0] == 'u',
        "w"@[0] == 'w',
{
    reveal_strlit("set");
    reveal_strlit("set-option");
    reveal_strlit("bind");
    reveal_strlit("bind-key");
    reveal_strlit("unbind");
    reveal_strlit("unbind-key");
    reveal_strlit("prefix");
    reveal_strlit("set-prefix");
    reveal_strlit("source");
    reveal_strlit("source-file");
    reveal_strlit("w");
    reveal_strlit("write");
    reveal_strlit("list-keys");
    reveal_strlit("show-bindings");
    reveal_strlit("show-options");
    reveal_strlit("exec");
    reveal_strlit("help");
    reveal_strlit("?");
}

/// Each command is read from its name and from its alias alike, whatever
/// follows it.
pub proof fn law_command_aliases_agree(rest: Seq<Seq<char>>)
    ensures
        parse_words_spec(seq!["set"@] + rest) == parse_words_spec(seq!["set-option"@] + rest),
        parse_words_spec(seq!["bind"@] + rest) == parse_words_spec(seq!["bind-key"@] + rest),
        parse_words_spec(seq!["unbind"@] + rest) == parse_words_spec(seq!["unbind-key"@] + rest),
        parse_words_spec(seq!["prefix"@] + rest) == parse_words_spec(seq!["set-prefix"@] + rest),
        parse_words_spec(seq!["source"@] + rest) == parse_words_spec(seq!["source-file"@] + rest),
        parse_words_spec(seq!["w"@] + rest) == parse_words_spec(seq!["write"@] + rest),
        parse_words_spec(seq!["list-keys"@] + rest) == parse_words_spec(seq!["show-bindings"@] + rest),
        parse_words_spec(seq!["help"@] + rest) == parse_words_spec(seq!["?"@] + rest),
{
    lemma_command_name_letters();
    lemma_command_words_split(rest);
}

proof fn lemma_command_words_split(rest: Seq<Seq<char>>)
    ensures
        forall|w: Seq<char>| #![trigger seq![w] + rest]
            {
                let parts = seq![w] + rest;
                &&& parts.len() == rest.len() + 1
                &&& parts[0] == w
                &&& (rest.len() > 0 ==> parts[1] == rest[0])
                &&& (rest.len() > 1 ==> parts[2] == rest[1])
                &&& (rest.len() > 0 ==> parts.last() == rest.last())
                &&& parts.skip(1) == rest
                &&& (rest.len() > 0 ==> parts.skip(2) == rest.skip(1))
                &&& (rest.len() > 1 ==> parts.skip(3) == rest.skip(2))
            },
{
    assert forall|w: Seq<char>| #![trigger seq![w] + rest]
        {
            let parts = seq![w] + rest;
            &&& parts.len() == rest.len() + 1
            &&& parts[0] == w
            &&& (rest.len() > 0 ==> parts[1] == rest[0])
            &&& (rest.len() > 1 ==> parts[2] == rest[1])
            &&& (rest.len() > 0 ==> parts.last() == rest.last())
            &&& parts.skip(1) == rest
            &&& (rest.len() > 0 ==> parts.skip(2) == rest.skip(1))
            &&& (rest.len() > 1 ==> parts.skip(3) == rest.skip(2))
        } by {
        let parts = seq![w] + rest;
        assert(parts.skip(1) =~= rest);
        if rest.len() > 0 {
            assert(parts.skip(2) =~= rest.skip(1));
        }
        if rest.len() > 1 {
            assert(parts.skip(3) =~= rest.skip(2));
        }
    }
}

/// What each command name gives, by what follows it: the command with its
/// arguments when they suffice, else the command's usage.
pub proof fn law_command_names_parse(rest: Seq<Seq<char>>)
    ensures
        parse_words_spec(seq!["set"@] + rest) == if rest.len() >= 2 {
            Ok(CommandView::SetOption { option: rest[0], value: join_spec(rest.skip(1), " "@) })
        } else {
            Err("Usage: set <option> <value>"@)
        },
        parse_words_spec(seq!["bind"@] + rest) == if rest.len() < 2 {
            Err("Usage: bind [context] <key> <action>"@)
        } else if rest.len() == 2 {
            Ok(CommandView::Bind { context: None, key: rest[0], action: rest[1] })
        } else {
            Ok(CommandView::Bind { context: Some(rest[0]), key: rest[1], action: join_spec(rest.skip(2), " "@) })
        },
        parse_words_spec(seq!["unbind"@] + rest) == if rest.len() == 0 {
            Err("Usage: unbind [context] <key>"@)
        } else {
            Ok(CommandView::Unbind {
                context: if rest.len() > 1 { Some(rest[0]) } else { None },
                key: rest.last(),
            })
        },
        parse_words_spec(seq!["prefix"@] + rest) == if rest.len() == 0 {
            Err("Usage: prefix <key>"@)
        } else {
            Ok(CommandView::BindPrefix { key: rest[0] })
        },
        parse_words_spec(seq!["source"@] + rest) == if rest.len() == 0 {
            Err("Usage: source <file>"@)
        } else {
            Ok(CommandView::Source { path: rest[0] })
        },
        parse_words_spec(seq!["write"@] + rest) == Ok::<CommandView, Seq<char>>(CommandView::Write),
        parse_words_spec(seq!["show-bindings"@] + rest) == Ok::<CommandView, Seq<char>>(
            CommandView::ShowBindings { context: if rest.len() > 0 { Some(rest[0]) } else { None } },
        ),
        parse_words_spec(seq!["show-options"@] + rest) == Ok::<CommandView, Seq<char>>(CommandView::ShowOptions),
        parse_words_spec(seq!["exec"@] + rest) == if rest.len() == 0 {
            Err("Usage: exec <action>"@)
        } else {
            Ok(CommandView::Exec { action: join_spec(rest, " "@) })
        },
        parse_words_spec(seq!["help"@] + rest) == Ok::<CommandView, Seq<char>>(CommandView::Help),
{
    lemma_command_name_letters();
    lemma_command_words_split(rest);
}

/// A word that names no command is reported as unknown, whatever follows it.
pub proof fn law_unknown_command(word: Seq<char>, rest: Seq<Seq<char>>)
    requires
        !command_names().contains(word),
    ensures
        parse_words_spec(seq![word] + rest) == Err::<CommandView, Seq<char>>("Unknown command: "@ + word),
{
    lemma_command_words_split(rest);
    let names = command_names();
    assert(names[0] == "set"@);
    assert(names[1] == "set-option"@);
    assert(names[2] == "bind"@);
    assert(names[3] == "bind-key"@);
    assert(names[4] == "unbind"@);
    assert(names[5] == "unbind-key"@);
    assert(names[6] == "prefix"@);
    assert(names[7] == "set-prefix"@);
    assert(names[8] == "source"@);
    assert(names[9] == "source-file"@);
    assert(names[10] == "w"@);
    assert(names[11] == "write"@);
    assert(names[12] == "list-keys"@);
    assert(names[13] == "show-bindings"@);
    assert(names[14] == "show-options"@);
    assert(names[15] == "exec"@);
    assert(names[16] == "help"@);
    assert(names[17] == "?"@);
}

} // verus!
