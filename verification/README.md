# ccm

The core of a terminal manager for AI agent sessions (tmux-like: several
repositories, a worktree per branch, a terminal session per task), written in
Verus: every function of the library states its behaviour in `requires` /
`ensures` and is proved against it.

## Layout

- `src/` — the verified library.
  - Configuration: `actions` (action names), `binding_map` (key → action
    tables), `defaults` (the default key tables), `config` (merging a user
    configuration with the defaults), `commands` (runtime `set` / `bind`
    commands).
  - Text: `text` (whitespace, trimming, words, decimal numbers),
    `text_input` (the editable text field), `keys` (key events, the bytes a
    key sends to a terminal, confirmations).
  - Diffs: `lcs` (longest common subsequence), `word_diff` (word-level
    change marks), `diff_line` (the styled pieces of a diff line).
  - Interface state: `state`, `ui_state`, `outline` (two-level lists with a
    cursor), `repo` (worktrees, sessions and daemon events), `git_panel`,
    `diff_nav` and `review` (the diff view and its line comments), `todo`,
    `input` (where a key goes, dialogs, carrying out what a key handler
    asks), `deletion` (confirmed deletions and the daemon's answers),
    `event_loop` (what the main loop does with each event: queued work,
    reconnection timers, drawing).
  - What is shown: `views` (rows of the panels and their highlighting,
    scrolling) and `overlays` (status bar, dialogs, dialog boxes).
- `tests/` — tests of the library on concrete values.
- `app/` — what the library leaves to its callers: reading and writing the
  configuration file (`~/.amux/config.toml`) and turning terminal key events
  into the library's key events.

What is not here: the program itself. There is no terminal event loop to run
the main loop's decisions, no client for the session daemon (its protocol
crate is not part of this project) and no drawing. The library computes each
decision and what each panel shows, but nothing yet runs it as an
interactive program.

Laws that relate several functions are public proof functions named `law_*`.
