//! Core logic of the ccm terminal manager: key bindings and runtime commands,
//! the text-input buffer, word-level diffing, the state of the interface and
//! how keys and daemon events change it, and what its panels and dialogs show.

pub mod state;
pub mod text;
pub mod lcs;
pub mod word_diff;
pub mod text_input;
pub mod actions;
pub mod binding_map;
pub mod config;
pub mod defaults;
pub mod commands;
pub mod keys;
pub mod outline;
pub mod diff_nav;
pub mod repo;
pub mod ui_state;
pub mod event_loop;
pub mod git_panel;
pub mod todo;
pub mod diff_line;
pub mod review;
pub mod input;
pub mod deletion;
pub mod views;
pub mod overlays;
