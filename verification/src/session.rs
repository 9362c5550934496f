//! One run of the tool, from the command line to the exit status.
//!
//! A run is a strict sequence: read the configuration file, parse it, look
//! the project up, enter its directory, start the new shell, terminate the
//! invoking one. Each step touches the outside world, so none of them happens
//! here. A [`Session`] says what to do next as a [`Request`]; the driver does
//! it and reports back with a [`Reply`]. Nothing is retried, and the first
//! failure ends the run.

use vstd::prelude::*;
use vstd::string::*;
use crate::config::{Config, ProjectView};
use crate::outcome::{Outcome, OutcomeView};
use crate::replacer::{
    after, begin, chosen_shell, step, text_of, ReplacerAction, ReplacerActionView, ReplacerState,
    ReplacerStateView,
};
use crate::resolver::{resolution_of, resolve, Resolution, ResolutionView};

verus! {

/// What the driver must do next.
#[derive(Debug, PartialEq, Eq)]
pub enum Request {
    /// Read the whole file at `path` as text.
    ReadConfig { path: String },
    /// Parse `text` as a configuration.
    ParseConfig { text: String },
    /// Make `path` the working directory of the process.
    ChangeDir { path: String },
    /// Read the parent's process id and the `SHELL` variable.
    InspectProcess,
    /// Start `program` as a child process.
    SpawnShell { program: String },
    /// Send the process `pid` the termination signal that cannot be ignored.
    KillParent { pid: i32 },
    /// Stop the child process that was started.
    KillChild,
    /// Show the outcome's message and leave with its exit status.
    Exit { outcome: Outcome },
}

/// What a [`Request`] is, mathematically.
pub ghost enum RequestView {
    ReadConfig { path: Seq<char> },
    ParseConfig { text: Seq<char> },
    ChangeDir { path: Seq<char> },
    InspectProcess,
    SpawnShell { program: Seq<char> },
    KillParent { pid: int },
    KillChild,
    Exit { outcome: OutcomeView },
}

impl View for Request {
    type V = RequestView;

    open spec fn view(&self) -> RequestView {
        match self {
            Request::ReadConfig { path } => RequestView::ReadConfig { path: path@ },
            Request::ParseConfig { text } => RequestView::ParseConfig { text: text@ },
            Request::ChangeDir { path } => RequestView::ChangeDir { path: path@ },
            Request::InspectProcess => RequestView::InspectProcess,
            Request::SpawnShell { program } => RequestView::SpawnShell { program: program@ },
            Request::KillParent { pid } => RequestView::KillParent { pid: *pid as int },
            Request::KillChild => RequestView::KillChild,
            Request::Exit { outcome } => RequestView::Exit { outcome: outcome@ },
        }
    }
}

/// What the driver reports after carrying out a request.
#[derive(Debug, PartialEq, Eq)]
pub enum Reply {
    /// The file was read; this is its text.
    Text { text: String },
    /// The text was parsed; this is the configuration.
    Parsed { config: Config },
    /// The parent's process id, and the `SHELL` variable if it is set.
    Process { parent: i32, shell: Option<String> },
    /// The request was carried out and there is nothing to hand back.
    Done,
    /// The request could not be carried out.
    Failed { cause: String },
}

/// What a [`Reply`] is, mathematically.
pub ghost enum ReplyView {
    Text { text: Seq<char> },
    Parsed { config: Seq<ProjectView> },
    Process { parent: int, shell: Option<Seq<char>> },
    Done,
    Failed { cause: Seq<char> },
}

impl View for Reply {
    type V = ReplyView;

    open spec fn view(&self) -> ReplyView {
        match self {
            Reply::Text { text } => ReplyView::Text { text: text@ },
            Reply::Parsed { config } => ReplyView::Parsed { config: config@ },
            Reply::Process { parent, shell } => ReplyView::Process {
                parent: *parent as int,
                shell: text_of(*shell),
            },
            Reply::Done => ReplyView::Done,
            Reply::Failed { cause } => ReplyView::Failed { cause: cause@ },
        }
    }
}

/// The stage of a run: which request is pending.
#[derive(Debug, PartialEq, Eq)]
pub enum Session {
    /// The configuration file is being read.
    ReadingConfig { target: String },
    /// The configuration text is being parsed.
    ParsingConfig { target: String },
    /// The project's directory is being entered.
    ChangingDir,
    /// The parent's process id and the shell are being looked up.
    InspectingProcess,
    /// The shell is being replaced.
    Replacing { replacer: ReplacerState },
    /// The run is over.
    Finished,
}

/// What a [`Session`] is, mathematically.
pub ghost enum SessionView {
    ReadingConfig { target: Seq<char> },
    ParsingConfig { target: Seq<char> },
    ChangingDir,
    InspectingProcess,
    Replacing { replacer: ReplacerStateView },
    Finished,
}

impl View for Session {
    type V = SessionView;

    open spec fn view(&self) -> SessionView {
        match self {
            Session::ReadingConfig { target } => SessionView::ReadingConfig { target: target@ },
            Session::ParsingConfig { target } => SessionView::ParsingConfig { target: target@ },
            Session::ChangingDir => SessionView::ChangingDir,
            Session::InspectingProcess => SessionView::InspectingProcess,
            Session::Replacing { replacer } => SessionView::Replacing { replacer: replacer@ },
            Session::Finished => SessionView::Finished,
        }
    }
}

/// The texts of the command-line arguments.
pub open spec fn texts(args: Seq<String>) -> Seq<Seq<char>> {
    args.map_values(|arg: String| arg@)
}

/// The end of a run with `outcome`.
pub open spec fn ended(outcome: OutcomeView) -> (SessionView, RequestView) {
    (SessionView::Finished, RequestView::Exit { outcome })
}

/// How a run begins. `args` holds the program's name and then its arguments:
/// with exactly one argument the configuration is read, and with any other
/// number the run ends at once with the usage message.
pub open spec fn started(args: Seq<Seq<char>>, config_path: Seq<char>) -> (
    SessionView,
    RequestView,
) {
    if args.len() == 2 {
        (
            SessionView::ReadingConfig { target: args[1] },
            RequestView::ReadConfig { path: config_path },
        )
    } else {
        ended(OutcomeView::Usage)
    }
}

/// The session-level meaning of a step of the shell replacement.
pub open spec fn replacing(step: (ReplacerStateView, ReplacerActionView)) -> (
    SessionView,
    RequestView,
) {
    match step.1 {
        ReplacerActionView::Spawn { program } => (
            SessionView::Replacing { replacer: step.0 },
            RequestView::SpawnShell { program },
        ),
        ReplacerActionView::KillParent { pid } => (
            SessionView::Replacing { replacer: step.0 },
            RequestView::KillParent { pid },
        ),
        ReplacerActionView::KillChild => (
            SessionView::Replacing { replacer: step.0 },
            RequestView::KillChild,
        ),
        ReplacerActionView::Conclude { outcome } => ended(outcome),
    }
}

/// How a run goes on: the stage and the request that follow `session` when
/// the driver reports `reply`. A reply that does not answer the pending
/// request ends the run with `OutOfTurn`.
pub open spec fn next(session: SessionView, reply: ReplyView) -> (SessionView, RequestView) {
    match session {
        SessionView::ReadingConfig { target } => match reply {
            ReplyView::Text { text } => (
                SessionView::ParsingConfig { target },
                RequestView::ParseConfig { text },
            ),
            ReplyView::Failed { cause } => ended(OutcomeView::ConfigUnreadable { cause }),
            _ => ended(OutcomeView::OutOfTurn),
        },
        SessionView::ParsingConfig { target } => match reply {
            ReplyView::Parsed { config } => match resolution_of(config, target) {
                ResolutionView::NoMatch => ended(OutcomeView::NoMatch),
                ResolutionView::Unique(project) => (
                    SessionView::ChangingDir,
                    RequestView::ChangeDir { path: project.path },
                ),
                ResolutionView::Duplicate => ended(OutcomeView::Duplicate),
            },
            ReplyView::Failed { cause } => ended(OutcomeView::ConfigMalformed { cause }),
            _ => ended(OutcomeView::OutOfTurn),
        },
        SessionView::ChangingDir => match reply {
            ReplyView::Done => (SessionView::InspectingProcess, RequestView::InspectProcess),
            ReplyView::Failed { cause } => ended(OutcomeView::DirectoryUnavailable { cause }),
            _ => ended(OutcomeView::OutOfTurn),
        },
        SessionView::InspectingProcess => match reply {
            ReplyView::Process { parent, shell } => (
                SessionView::Replacing { replacer: ReplacerStateView::Idle { parent } },
                RequestView::SpawnShell { program: chosen_shell(shell) },
            ),
            _ => ended(OutcomeView::OutOfTurn),
        },
        SessionView::Replacing { replacer } => match reply {
            ReplyView::Done => replacing(after(replacer, None)),
            ReplyView::Failed { cause } => replacing(after(replacer, Some(cause))),
            _ => ended(OutcomeView::OutOfTurn),
        },
        SessionView::Finished => ended(OutcomeView::OutOfTurn),
    }
}

/// Where a run stands after the driver has reported `replies`, one after the
/// other, starting from `first`.
pub open spec fn run(first: (SessionView, RequestView), replies: Seq<ReplyView>) -> (
    SessionView,
    RequestView,
)
    decreases replies.len(),
{
    if replies.len() == 0 {
        first
    } else {
        next(run(first, replies.drop_last()).0, replies.last())
    }
}

/// The name of the configuration file, relative to the working directory in
/// which the program starts.
pub fn default_config_path() -> (path: String)
    ensures
        path@ == ".goto.json"@,
{
    String::from_str(".goto.json")
}

fn end(outcome: Outcome) -> (last: (Session, Request))
    ensures
        (last.0@, last.1@) == ended(outcome@),
{
    (Session::Finished, Request::Exit { outcome })
}

fn replace(state: ReplacerState, action: ReplacerAction) -> (out: (Session, Request))
    ensures
        (out.0@, out.1@) == replacing((state@, action@)),
{
    match action {
        ReplacerAction::Spawn { program } => (
            Session::Replacing { replacer: state },
            Request::SpawnShell { program },
        ),
        ReplacerAction::KillParent { pid } => (
            Session::Replacing { replacer: state },
            Request::KillParent { pid },
        ),
        ReplacerAction::KillChild => (Session::Replacing { replacer: state }, Request::KillChild),
        ReplacerAction::Conclude { outcome } => end(outcome),
    }
}

impl Session {
    /// Begins a run. `args` is the command line, the program's name first;
    /// `config_path` is where the configuration is read from.
    pub fn start(args: &Vec<String>, config_path: String) -> (first: (Session, Request))
        ensures
            (first.0@, first.1@) == started(texts(args@), config_path@),
    {
        if args.len() == 2 {
            (
                Session::ReadingConfig { target: args[1].clone() },
                Request::ReadConfig { path: config_path },
            )
        } else {
            end(Outcome::Usage)
        }
    }

    /// Goes on with the run after the driver has reported `reply`.
    pub fn step(self, reply: Reply) -> (then: (Session, Request))
        ensures
            (then.0@, then.1@) == next(self@, reply@),
    {
        match self {
            Session::ReadingConfig { target } => match reply {
                Reply::Text { text } => (
                    Session::ParsingConfig { target },
                    Request::ParseConfig { text },
                ),
                Reply::Failed { cause } => end(Outcome::ConfigUnreadable { cause }),
                _ => end(Outcome::OutOfTurn),
            },
            Session::ParsingConfig { target } => match reply {
                Reply::Parsed { config } => match resolve(&config, &target) {
                    Resolution::NoMatch => end(Outcome::NoMatch),
                    Resolution::Unique(project) => (
                        Session::ChangingDir,
                        Request::ChangeDir { path: project.path },
                    ),
                    Resolution::Duplicate => end(Outcome::Duplicate),
                },
                Reply::Failed { cause } => end(Outcome::ConfigMalformed { cause }),
                _ => end(Outcome::OutOfTurn),
            },
            Session::ChangingDir => match reply {
                Reply::Done => (Session::InspectingProcess, Request::InspectProcess),
                Reply::Failed { cause } => end(Outcome::DirectoryUnavailable { cause }),
                _ => end(Outcome::OutOfTurn),
            },
            Session::InspectingProcess => match reply {
                Reply::Process { parent, shell } => {
                    let (state, action) = begin(parent, shell);
                    replace(state, action)
                },
                _ => end(Outcome::OutOfTurn),
            },
            Session::Replacing { replacer } => match reply {
                Reply::Done => {
                    let (state, action) = step(replacer, Ok(()));
                    replace(state, action)
                },
                Reply::Failed { cause } => {
                    let (state, action) = step(replacer, Err(cause));
                    replace(state, action)
                },
                _ => end(Outcome::OutOfTurn),
            },
            Session::Finished => end(Outcome::OutOfTurn),
        }
    }
}

} // verus!
