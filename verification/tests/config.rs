use ccm::actions::{action_for_name, Action};
use ccm::commands::RuntimeCommand;
use ccm::config::{load_or_default, merge_binding_map, Config, ConfigError, ConfigSource};
use ccm::binding_map::BindingMap;
use ccm::defaults::{default_bindings, default_config, default_prefix_bindings};

#[test]
fn test_parse_set_command() {
    let cmd = RuntimeCommand::parse(":set mouse_enabled true").unwrap();
    assert_eq!(
        cmd,
        RuntimeCommand::SetOption {
            option: "mouse_enabled".to_string(),
            value: "true".to_string()
        }
    );
}

#[test]
fn test_parse_bind_command() {
    let cmd = RuntimeCommand::parse(":bind j move-down").unwrap();
    assert_eq!(
        cmd,
        RuntimeCommand::Bind {
            context: None,
            key: "j".to_string(),
            action: "move-down".to_string()
        }
    );
}

#[test]
fn test_load_or_default() {
    // No configuration file: the defaults are used.
    let config = load_or_default(ConfigSource::Missing).unwrap();
    assert_eq!(config.prefix.key, "C-s");
}

#[test]
fn test_config_has_prefix_bindings() {
    let config = default_config();
    assert!(!config.bindings.prefix.is_empty());
    assert_eq!(
        config.bindings.prefix.get("s"),
        Some(&"focus-sessions".to_string())
    );
}

#[test]
fn test_config_has_sidebar_bindings() {
    let config = default_config();
    assert!(!config.bindings.sidebar.is_empty());
    assert_eq!(
        config.bindings.sidebar.get("j"),
        Some(&"move-down".to_string())
    );
    assert_eq!(
        config.bindings.sidebar.get("k"),
        Some(&"move-up".to_string())
    );
}

// ============ further cases ============

fn custom_message(r: Result<RuntimeCommand, ConfigError>) -> String {
    match r {
        Err(ConfigError::Custom(m)) => m,
        other => panic!("expected a Custom error, got {:?}", other),
    }
}

#[test]
fn parse_commands_with_contexts_and_joins() {
    assert_eq!(
        RuntimeCommand::parse("  bind-key sidebar C-x refresh all ").unwrap(),
        RuntimeCommand::Bind {
            context: Some("sidebar".to_string()),
            key: "C-x".to_string(),
            action: "refresh all".to_string()
        }
    );
    assert_eq!(
        RuntimeCommand::parse("set-option a  b\tc").unwrap(),
        RuntimeCommand::SetOption { option: "a".to_string(), value: "b c".to_string() }
    );
    assert_eq!(
        RuntimeCommand::parse(":unbind diff x").unwrap(),
        RuntimeCommand::Unbind { context: Some("diff".to_string()), key: "x".to_string() }
    );
    assert_eq!(
        RuntimeCommand::parse("unbind x").unwrap(),
        RuntimeCommand::Unbind { context: None, key: "x".to_string() }
    );
    assert_eq!(
        RuntimeCommand::parse("prefix C-a").unwrap(),
        RuntimeCommand::BindPrefix { key: "C-a".to_string() }
    );
    assert_eq!(
        RuntimeCommand::parse("source-file ~/x.toml").unwrap(),
        RuntimeCommand::Source { path: "~/x.toml".to_string() }
    );
    assert_eq!(RuntimeCommand::parse(":w").unwrap(), RuntimeCommand::Write);
    assert_eq!(
        RuntimeCommand::parse("list-keys todo").unwrap(),
        RuntimeCommand::ShowBindings { context: Some("todo".to_string()) }
    );
    assert_eq!(
        RuntimeCommand::parse("show-bindings").unwrap(),
        RuntimeCommand::ShowBindings { context: None }
    );
    assert_eq!(RuntimeCommand::parse("show-options").unwrap(), RuntimeCommand::ShowOptions);
    assert_eq!(
        RuntimeCommand::parse("exec move-down now").unwrap(),
        RuntimeCommand::Exec { action: "move-down now".to_string() }
    );
    assert_eq!(RuntimeCommand::parse("?").unwrap(), RuntimeCommand::Help);
}

#[test]
fn parse_command_errors() {
    assert_eq!(custom_message(RuntimeCommand::parse("   ")), "Empty command");
    assert_eq!(custom_message(RuntimeCommand::parse(":")), "Empty command");
    assert_eq!(custom_message(RuntimeCommand::parse("set x")), "Usage: set <option> <value>");
    assert_eq!(custom_message(RuntimeCommand::parse("bind j")), "Usage: bind [context] <key> <action>");
    assert_eq!(custom_message(RuntimeCommand::parse("unbind")), "Usage: unbind [context] <key>");
    assert_eq!(custom_message(RuntimeCommand::parse("prefix")), "Usage: prefix <key>");
    assert_eq!(custom_message(RuntimeCommand::parse("source")), "Usage: source <file>");
    assert_eq!(custom_message(RuntimeCommand::parse("exec")), "Usage: exec <action>");
    assert_eq!(custom_message(RuntimeCommand::parse("frobnicate now")), "Unknown command: frobnicate");
}

#[test]
fn actions_parse_with_aliases_case_and_space() {
    assert_eq!(Action::from_str("  Move-Down "), Some(Action::MoveDown));
    assert_eq!(Action::from_str("up"), Some(Action::MoveUp));
    assert_eq!(Action::from_str("?"), Some(Action::ShowHelp));
    assert_eq!(Action::from_str(":"), Some(Action::EnterCommandMode));
    assert_eq!(Action::from_str("terminal-normal-mode"), Some(Action::NormalMode));
    assert_eq!(Action::from_str("bogus"), None);
    assert_eq!(action_for_name("Quit"), None);
    assert_eq!(action_for_name("exit"), Some(Action::Quit));
    assert_eq!(Action::SubmitReviewClaude.display_name(), "Submit Review to Agent");
    assert_eq!(Action::from_str("submit-review-agent"), Some(Action::SubmitReviewClaude));
    assert_eq!(Action::FocusPrev.display_name(), "Focus Previous");
    let parsed: Result<Action, String> = "nope".parse();
    assert_eq!(parsed, Err("Unknown action: nope".to_string()));
    let parsed: Result<Action, String> = "stage".parse();
    assert_eq!(parsed, Ok(Action::StageFile));
}

#[test]
fn every_default_binding_names_an_action_or_a_repo_switch() {
    let b = default_bindings();
    for map in [&b.global, &b.prefix, &b.sidebar, &b.terminal_normal, &b.terminal_insert,
                &b.diff, &b.git_status, &b.todo, &b.dialog_text, &b.dialog_confirm] {
        for (k, v) in map.entries() {
            assert!(Action::from_str(v).is_some() || v.starts_with("switch-repo-"), "{} -> {}", k, v);
        }
    }
}

#[test]
fn default_tables_have_expected_entries() {
    let prefix = default_prefix_bindings();
    assert_eq!(prefix.len(), 24);
    assert_eq!(prefix.get("1"), Some(&"switch-repo-0".to_string()));
    assert_eq!(prefix.get("9"), Some(&"switch-repo-8".to_string()));
    let b = default_bindings();
    // In the sidebar, "d" and "x" delete and "t" toggles the diff view.
    assert_eq!(b.sidebar.get("d"), Some(&"delete-current".to_string()));
    assert_eq!(b.sidebar.get("x"), Some(&"delete-current".to_string()));
    assert_eq!(b.sidebar.get("t"), Some(&"toggle-diff-view".to_string()));
    assert!(b.global.is_empty());
    assert_eq!(b.dialog_text.get("S-Enter"), Some(&"insert-newline".to_string()));
    assert_eq!(b.todo.get("Space"), Some(&"toggle-complete".to_string()));
}

#[test]
fn merge_keeps_user_and_adds_defaults() {
    let mut user = BindingMap::new();
    user.insert("j".to_string(), "scroll-down".to_string());
    user.insert("Z".to_string(), "quit".to_string());
    let defaults = default_config();
    merge_binding_map(&mut user, &defaults.bindings.sidebar);
    assert_eq!(user.get("j"), Some(&"scroll-down".to_string()));
    assert_eq!(user.get("Z"), Some(&"quit".to_string()));
    assert_eq!(user.get("k"), Some(&"move-up".to_string()));
    let n = user.len();
    merge_binding_map(&mut user, &defaults.bindings.sidebar);
    assert_eq!(user.len(), n);
}

#[test]
fn merge_with_defaults_fills_empty_config() {
    let mut config = default_config();
    config.prefix.key = String::new();
    config.bindings.prefix = BindingMap::new();
    config.bindings.diff = BindingMap::new();
    config.bindings.diff.insert("q".to_string(), "quit".to_string());
    config.merge_with_defaults();
    assert_eq!(config.prefix.key, "C-s");
    assert_eq!(config.bindings.prefix.get("s"), Some(&"focus-sessions".to_string()));
    assert_eq!(config.bindings.diff.get("q"), Some(&"quit".to_string()));
    assert_eq!(config.bindings.diff.get("c"), Some(&"add-comment".to_string()));
}

#[test]
fn load_uses_parsed_or_defaults() {
    let mut custom = default_config();
    custom.prefix.key = "C-a".to_string();
    let loaded = Config::load_or_default(ConfigSource::Parsed(custom)).unwrap();
    assert_eq!(loaded.prefix.key, "C-a");
    let fallback = Config::load_or_default(ConfigSource::Unparsable("bad".to_string())).unwrap();
    assert_eq!(fallback.prefix.key, "C-s");
    assert_eq!(fallback.ui.sidebar_width, 30);
}

fn bound(table: &BindingMap, key: &str) -> Option<String> {
    table.get(key).cloned()
}

#[test]
fn readme_key_tables_are_the_defaults() {
    let b = default_bindings();
    for (key, action) in [
        ("b", "focus-branches"),
        ("s", "focus-sessions"),
        ("t", "focus-terminal"),
        ("w", "focus-sidebar"),
        ("n", "create-session"),
        ("a", "add-worktree"),
        ("d", "delete-current"),
        ("g", "focus-git-status"),
        ("v", "focus-diff"),
        ("o", "open-todo"),
        ("[", "terminal-normal-mode"),
        ("f", "toggle-fullscreen"),
        ("z", "toggle-fullscreen"),
        ("r", "refresh-all"),
        ("q", "quit"),
    ] {
        assert_eq!(bound(&b.prefix, key), Some(action.to_string()), "prefix {}", key);
    }
    for (key, action) in [
        ("s", "stage-file"),
        ("u", "unstage-file"),
        ("S", "stage-all"),
        ("U", "unstage-all"),
        ("r", "refresh-status"),
        ("Tab", "focus-diff"),
        ("Esc", "focus-sidebar"),
        ("q", "focus-sidebar"),
    ] {
        assert_eq!(bound(&b.git_status, key), Some(action.to_string()), "git {}", key);
    }
    for key in ["Esc", "q", "t"] {
        assert_eq!(bound(&b.diff, key), Some("back-to-terminal".to_string()), "diff {}", key);
    }
    for (key, action) in [
        ("Space", "toggle-complete"),
        ("n", "add-todo"),
        ("N", "add-child-todo"),
        ("e", "edit-title"),
        ("E", "edit-description"),
        ("x", "delete-todo"),
        ("H", "toggle-show-completed"),
        ("r", "refresh-todos"),
        ("Esc", "close-popup"),
        ("q", "close-popup"),
    ] {
        assert_eq!(bound(&b.todo, key), Some(action.to_string()), "todo {}", key);
    }
    for (key, action) in [("u", "scroll-half-page-up"), ("d", "scroll-half-page-down"), ("g", "scroll-top"), ("G", "scroll-bottom")] {
        assert_eq!(bound(&b.terminal_normal, key), Some(action.to_string()), "terminal {}", key);
    }
}

#[test]
fn parse_ignores_a_leading_colon_and_surrounding_spaces() {
    for s in ["set mouse_enabled true", "bind sidebar j move-down", "unbind j", "bogus", "", "set x", " source ~/x "] {
        let plain = RuntimeCommand::parse(s);
        assert_eq!(RuntimeCommand::parse(&format!(":{}", s)), plain);
        assert_eq!(RuntimeCommand::parse(&format!("  {} ", s)), plain);
        assert_eq!(RuntimeCommand::parse(&format!("\t{}\n", s)), plain);
    }
}

#[test]
fn every_default_binding_names_an_action() {
    let b = default_bindings();
    let tables = [
        &b.global, &b.prefix, &b.sidebar, &b.terminal_normal, &b.terminal_insert, &b.diff, &b.git_status,
        &b.todo, &b.dialog_text, &b.dialog_confirm,
    ];
    let mut count = 0;
    for table in tables {
        for (_, v) in table.entries() {
            assert!(Action::from_str(v).is_some() || v.starts_with("switch-repo-"), "{}", v);
            count += 1;
        }
    }
    assert!(count > 100);
    assert!(b.global.entries().is_empty());
}

#[test]
fn config_paths_under_the_home_directory() {
    assert_eq!(ccm::config::config_dir("/home/u"), "/home/u/.amux");
    assert_eq!(ccm::config::config_file("/home/u"), "/home/u/.amux/config.toml");
    assert_eq!(ccm::config::config_file("/"), "/.amux/config.toml");
    assert_eq!(ccm::config::config_file("/home/u/"), "/home/u/.amux/config.toml");
    assert_eq!(
        std::path::Path::new("/home/u").join(".amux").join("config.toml").to_str().unwrap(),
        ccm::config::config_file("/home/u")
    );
}

#[test]
fn default_digits_switch_repositories() {
    let b = default_bindings();
    for i in 1..=9u32 {
        let key = i.to_string();
        let want = format!("switch-repo-{}", i - 1);
        for table in [&b.prefix, &b.sidebar] {
            let found = table.entries().iter().find(|(k, _)| *k == key).map(|(_, v)| v.clone());
            assert_eq!(found, Some(want.clone()));
        }
    }
    assert!(b.global.entries().is_empty());
}
