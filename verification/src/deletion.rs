//! The deletions that a confirm dialog carries out: which target the dialog
//! holds, and what the interface shows once the daemon has answered.

use vstd::prelude::*;
use crate::state::{AsyncAction, DeleteTarget, InputMode};
use crate::text::concat;
use crate::ui_state::{restore_focus_spec, UiState, UiView};

verus! {

/// How a confirmed session deletion ends the session.
#[derive(Debug, Clone, Copy, PartialEq, Eq, Structural)]
pub enum SessionEnd {
    /// Destroy it for good
    Destroy,
    /// Stop it, so that it can be resumed
    Stop,
}

/// The message shown once a session has ended.
pub open spec fn session_end_message(end: SessionEnd, name: Seq<char>) -> Seq<char> {
    match end {
        SessionEnd::Destroy => "Destroyed session: "@ + name,
        SessionEnd::Stop => "Stopped session: "@ + name,
    }
}

impl UiState {
    /// The daemon has answered a queued request to destroy a session. On
    /// success the session list and the sessions of the worktree at
    /// `branch_idx` are to be reloaded, in that order, which the result
    /// lists; on failure the error shows and nothing follows.
    pub fn destroy_session_done(&mut self, branch_idx: usize, outcome: Result<(), String>) -> (r: Vec<
        AsyncAction,
    >)
        requires
            old(self).wf(),
        ensures
            final(self).wf(),
            match outcome {
                Ok(_) => r@ == seq![
                    AsyncAction::RefreshSessions,
                    AsyncAction::LoadWorktreeSessions { wt_idx: branch_idx },
                ] && final(self)@ == old(self)@,
                Err(e) => r@.len() == 0 && final(self)@ == (UiView { error_message: Some(e@), ..old(self)@ }),
            },
    {
        match outcome {
            Ok(_) => vec![AsyncAction::RefreshSessions, AsyncAction::LoadWorktreeSessions { wt_idx: branch_idx }],
            Err(e) => {
                self.error_message = Some(e);
                Vec::new()
            },
        }
    }

    /// Take the target of the delete confirmation; the dialog gives way to
    /// normal input. Outside that dialog nothing happens.
    pub fn take_delete_target(&mut self) -> (r: Option<DeleteTarget>)
        requires
            old(self).wf(),
        ensures
            final(self).wf(),
            match old(self)@.input_mode {
                InputMode::ConfirmDelete(t) => r == Some(t) && final(self)@ == (UiView {
                    input_mode: InputMode::Normal,
                    ..old(self)@
                }),
                _ => r is None && final(self)@ == old(self)@,
            },
    {
        let mut mode = InputMode::Normal;
        std::mem::swap(&mut mode, &mut self.input_mode);
        match mode {
            InputMode::ConfirmDelete(t) => Some(t),
            other => {
                self.input_mode = other;
                None
            },
        }
    }

    /// The daemon has answered the removal of the worktree on `branch`. On
    /// success the next dialog asks whether to delete the branch as well (the
    /// saved focus stays saved for it) and the branches are to be refreshed,
    /// which the result tells; on failure the error shows and the saved focus
    /// comes back.
    pub fn worktree_removal_done(&mut self, branch: String, outcome: Result<(), String>) -> (r: bool)
        requires
            old(self).wf(),
        ensures
            final(self).wf(),
            match outcome {
                Ok(_) => r && final(self)@ == (UiView {
                    input_mode: InputMode::ConfirmDeleteBranch(branch),
                    ..old(self)@
                }),
                Err(e) => !r && final(self)@ == (UiView {
                    error_message: Some(e@),
                    ..restore_focus_spec(old(self)@)
                }),
            },
    {
        match outcome {
            Ok(_) => {
                self.input_mode = InputMode::ConfirmDeleteBranch(branch);
                true
            },
            Err(e) => {
                self.error_message = Some(e);
                self.restore_focus();
                false
            },
        }
    }

    /// The daemon has answered ending the session `name`. On success the
    /// status says how it ended and the sessions are to be refreshed, which
    /// the result tells; on failure the error shows. Either way the saved
    /// focus comes back.
    pub fn session_end_done(&mut self, name: &str, end: SessionEnd, outcome: Result<(), String>) -> (r: bool)
        requires
            old(self).wf(),
        ensures
            final(self).wf(),
            match outcome {
                Ok(_) => r && final(self)@ == (UiView {
                    status_message: Some(session_end_message(end, name@)),
                    ..restore_focus_spec(old(self)@)
                }),
                Err(e) => !r && final(self)@ == (UiView {
                    error_message: Some(e@),
                    ..restore_focus_spec(old(self)@)
                }),
            },
    {
        let done = match outcome {
            Ok(_) => {
                let message = match end {
                    SessionEnd::Destroy => concat("Destroyed session: ", name),
                    SessionEnd::Stop => concat("Stopped session: ", name),
                };
                proof {
                    reveal_strlit("Destroyed session: ");
                    reveal_strlit("Stopped session: ");
                }
                self.status_message = Some(message);
                true
            },
            Err(e) => {
                self.error_message = Some(e);
                false
            },
        };
        self.restore_focus();
        done
    }

    /// Take the branch that the dialog after a worktree removal offers to
    /// delete: the dialog closes and the saved focus comes back. Outside that
    /// dialog nothing happens.
    pub fn take_branch_to_delete(&mut self) -> (r: Option<String>)
        requires
            old(self).wf(),
        ensures
            final(self).wf(),
            match old(self)@.input_mode {
                InputMode::ConfirmDeleteBranch(b) => r == Some(b) && final(self)@ == restore_focus_spec(
                    UiView { input_mode: InputMode::Normal, ..old(self)@ },
                ),
                _ => r is None && final(self)@ == old(self)@,
            },
    {
        let mut mode = InputMode::Normal;
        std::mem::swap(&mut mode, &mut self.input_mode);
        match mode {
            InputMode::ConfirmDeleteBranch(b) => {
                self.restore_focus();
                Some(b)
            },
            other => {
                self.input_mode = other;
                None
            },
        }
    }

    /// The daemon has answered deleting `branch`: on success the status says
    /// so and the branches are to be refreshed, which the result tells; on
    /// failure the error shows.
    pub fn branch_deletion_done(&mut self, branch: &str, outcome: Result<(), String>) -> (r: bool)
        requires
            old(self).wf(),
        ensures
            final(self).wf(),
            match outcome {
                Ok(_) => r && final(self)@ == (UiView {
                    status_message: Some("Deleted branch: "@ + branch@),
                    ..old(self)@
                }),
                Err(e) => !r && final(self)@ == (UiView {
                    error_message: Some("Failed to delete branch: "@ + e@),
                    ..old(self)@
                }),
            },
    {
        proof {
            reveal_strlit("Deleted branch: ");
            reveal_strlit("Failed to delete branch: ");
        }
        match outcome {
            Ok(_) => {
                self.status_message = Some(concat("Deleted branch: ", branch));
                true
            },
            Err(e) => {
                self.error_message = Some(concat("Failed to delete branch: ", e.as_str()));
                false
            },
        }
    }

    /// The worktree whose sessions the dialog asks to delete first, when that
    /// dialog is open.
    pub fn worktree_sessions_target(&self) -> (r: Option<DeleteTarget>)
        ensures
            match self@.input_mode {
                InputMode::ConfirmDeleteWorktreeSessions { repo_id, branch, .. } => r matches Some(
                    DeleteTarget::Worktree { repo_id: a, branch: b },
                ) && a@ == repo_id@ && b@ == branch@,
                _ => r is None,
            },
    {
        match &self.input_mode {
            InputMode::ConfirmDeleteWorktreeSessions { repo_id, branch, .. } => Some(
                DeleteTarget::Worktree { repo_id: repo_id.clone(), branch: branch.clone() },
            ),
            _ => None,
        }
    }

    /// The worktree's sessions are gone: the dialog now confirms removing the
    /// worktree itself.
    pub fn worktree_sessions_cleared(&mut self, target: DeleteTarget)
        requires
            old(self).wf(),
        ensures
            final(self).wf(),
            final(self)@ == (UiView { input_mode: InputMode::ConfirmDelete(target), ..old(self)@ }),
    {
        self.input_mode = InputMode::ConfirmDelete(target);
    }
}

} // verus!
