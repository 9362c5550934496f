//! Replacing the invoking shell by a new one.
//!
//! The operating system offers no way to move a running shell into another
//! directory from outside. The tool therefore starts a new shell in the target
//! directory and then terminates the shell that invoked it, with a signal that
//! cannot be ignored. If that fails, the new shell is stopped again, so that
//! the user is not left with two of them.
//!
//! This module decides; it starts and signals nothing itself. The states:
//!
//! ```text
//! Idle ──spawned──▶ ChildSpawned ──parent killed──▶ ParentKilled
//!  │                     │
//!  │ failed              │ failed
//!  ▼                     ▼
//! SpawnFailed      ParentKillFailed ──child killed──▶ ChildKilled
//!                        │
//!                        │ failed
//!                        ▼
//!                  ChildKillAlsoFailed
//! ```

use vstd::prelude::*;
use vstd::string::*;
use crate::outcome::{Outcome, OutcomeView};

verus! {

/// Where the replacement stands.
#[derive(Debug, PartialEq, Eq)]
pub enum ReplacerState {
    /// Nothing has happened yet; the shell is about to be started. `parent`
    /// is the process id of the invoking shell, read before anything else.
    Idle { parent: i32 },
    /// The new shell runs; the parent is about to be signalled.
    ChildSpawned,
    /// The parent could not be terminated; the new shell is about to be stopped.
    ParentKillFailed { cause: String },
    /// The new shell could not be started. Final.
    SpawnFailed,
    /// The parent is gone and the new shell has taken its place. Final.
    ParentKilled,
    /// The parent survived and the new shell was stopped. Final.
    ChildKilled,
    /// The parent survived and the new shell could not be stopped. Final.
    ChildKillAlsoFailed,
}

/// What a [`ReplacerState`] is, mathematically.
pub ghost enum ReplacerStateView {
    Idle { parent: int },
    ChildSpawned,
    ParentKillFailed { cause: Seq<char> },
    SpawnFailed,
    ParentKilled,
    ChildKilled,
    ChildKillAlsoFailed,
}

impl View for ReplacerState {
    type V = ReplacerStateView;

    open spec fn view(&self) -> ReplacerStateView {
        match self {
            ReplacerState::Idle { parent } => ReplacerStateView::Idle { parent: *parent as int },
            ReplacerState::ChildSpawned => ReplacerStateView::ChildSpawned,
            ReplacerState::ParentKillFailed { cause } => ReplacerStateView::ParentKillFailed {
                cause: cause@,
            },
            ReplacerState::SpawnFailed => ReplacerStateView::SpawnFailed,
            ReplacerState::ParentKilled => ReplacerStateView::ParentKilled,
            ReplacerState::ChildKilled => ReplacerStateView::ChildKilled,
            ReplacerState::ChildKillAlsoFailed => ReplacerStateView::ChildKillAlsoFailed,
        }
    }
}

impl ReplacerStateView {
    /// Whether nothing more will be attempted from this state.
    pub open spec fn is_final(self) -> bool {
        !(self is Idle || self is ChildSpawned || self is ParentKillFailed)
    }
}

/// What to do next.
#[derive(Debug, PartialEq, Eq)]
pub enum ReplacerAction {
    /// Start `program` as a child process that inherits the working directory
    /// and the environment.
    Spawn { program: String },
    /// Send the process `pid` the termination signal that cannot be ignored.
    KillParent { pid: i32 },
    /// Stop the child process that was started.
    KillChild,
    /// Nothing more: the replacement has ended in this way.
    Conclude { outcome: Outcome },
}

/// What a [`ReplacerAction`] is, mathematically.
pub ghost enum ReplacerActionView {
    Spawn { program: Seq<char> },
    KillParent { pid: int },
    KillChild,
    Conclude { outcome: OutcomeView },
}

impl View for ReplacerAction {
    type V = ReplacerActionView;

    open spec fn view(&self) -> ReplacerActionView {
        match self {
            ReplacerAction::Spawn { program } => ReplacerActionView::Spawn { program: program@ },
            ReplacerAction::KillParent { pid } => ReplacerActionView::KillParent {
                pid: *pid as int,
            },
            ReplacerAction::KillChild => ReplacerActionView::KillChild,
            ReplacerAction::Conclude { outcome } => ReplacerActionView::Conclude {
                outcome: outcome@,
            },
        }
    }
}

/// The text of an optional string.
pub open spec fn text_of(value: Option<String>) -> Option<Seq<char>> {
    match value {
        Some(text) => Some(text@),
        None => None,
    }
}

/// The cause of a failure, if the step failed.
pub open spec fn failure_of(last: Result<(), String>) -> Option<Seq<char>> {
    match last {
        Ok(_) => None,
        Err(cause) => Some(cause@),
    }
}

/// The shell to start: the configured one, or `bash` where none is configured.
pub open spec fn chosen_shell(configured: Option<Seq<char>>) -> Seq<char> {
    match configured {
        Some(shell) => shell,
        None => "bash"@,
    }
}

/// The state and the action that follow `state` once the pending action has
/// succeeded (`failure` is `None`) or failed with a cause.
pub open spec fn after(state: ReplacerStateView, failure: Option<Seq<char>>) -> (
    ReplacerStateView,
    ReplacerActionView,
) {
    match state {
        ReplacerStateView::Idle { parent } => match failure {
            None => (ReplacerStateView::ChildSpawned, ReplacerActionView::KillParent { pid: parent }),
            Some(cause) => (
                ReplacerStateView::SpawnFailed,
                ReplacerActionView::Conclude { outcome: OutcomeView::SpawnFailed { cause } },
            ),
        },
        ReplacerStateView::ChildSpawned => match failure {
            None => (
                ReplacerStateView::ParentKilled,
                ReplacerActionView::Conclude { outcome: OutcomeView::Replaced },
            ),
            Some(cause) => (
                ReplacerStateView::ParentKillFailed { cause },
                ReplacerActionView::KillChild,
            ),
        },
        ReplacerStateView::ParentKillFailed { cause } => match failure {
            None => (
                ReplacerStateView::ChildKilled,
                ReplacerActionView::Conclude { outcome: OutcomeView::ParentSurvived { cause } },
            ),
            Some(child_cause) => (
                ReplacerStateView::ChildKillAlsoFailed,
                ReplacerActionView::Conclude {
                    outcome: OutcomeView::Stranded { parent_cause: cause, child_cause },
                },
            ),
        },
        _ => (state, ReplacerActionView::Conclude { outcome: OutcomeView::OutOfTurn }),
    }
}

/// Picks the shell to start from the value of the `SHELL` variable, if it is set.
pub fn choose_shell(configured: Option<String>) -> (shell: String)
    ensures
        shell@ == chosen_shell(text_of(configured)),
{
    match configured {
        Some(shell) => shell,
        None => String::from_str("bash"),
    }
}

/// Begins the replacement. `parent` is the process id of the invoking shell
/// and `configured` the value of the `SHELL` variable, both read by the caller
/// just before this call.
pub fn begin(parent: i32, configured: Option<String>) -> (first: (ReplacerState, ReplacerAction))
    ensures
        first.0@ == (ReplacerStateView::Idle { parent: parent as int }),
        first.1@ == (ReplacerActionView::Spawn { program: chosen_shell(text_of(configured)) }),
{
    (ReplacerState::Idle { parent }, ReplacerAction::Spawn { program: choose_shell(configured) })
}

/// Moves on after the pending action: `last` says whether it succeeded. In a
/// final state there is no pending action, and the answer is `OutOfTurn`.
pub fn step(state: ReplacerState, last: Result<(), String>) -> (next: (
    ReplacerState,
    ReplacerAction,
))
    ensures
        (next.0@, next.1@) == after(state@, failure_of(last)),
{
    match state {
        ReplacerState::Idle { parent } => match last {
            Ok(_) => (ReplacerState::ChildSpawned, ReplacerAction::KillParent { pid: parent }),
            Err(cause) => (
                ReplacerState::SpawnFailed,
                ReplacerAction::Conclude { outcome: Outcome::SpawnFailed { cause } },
            ),
        },
        ReplacerState::ChildSpawned => match last {
            Ok(_) => (
                ReplacerState::ParentKilled,
                ReplacerAction::Conclude { outcome: Outcome::Replaced },
            ),
            Err(cause) => (ReplacerState::ParentKillFailed { cause }, ReplacerAction::KillChild),
        },
        ReplacerState::ParentKillFailed { cause } => match last {
            Ok(_) => (
                ReplacerState::ChildKilled,
                ReplacerAction::Conclude { outcome: Outcome::ParentSurvived { cause } },
            ),
            Err(child_cause) => (
                ReplacerState::ChildKillAlsoFailed,
                ReplacerAction::Conclude {
                    outcome: Outcome::Stranded { parent_cause: cause, child_cause },
                },
            ),
        },
        other => (other, ReplacerAction::Conclude { outcome: Outcome::OutOfTurn }),
    }
}

} // verus!
