//! How a run ends: the exit status and the message for the user.

use vstd::prelude::*;
use vstd::string::*;

verus! {

/// Every way in which a run can end.
///
/// A `cause` is the text of the underlying error, as the operating system or
/// the parser gave it.
#[derive(Debug, PartialEq, Eq)]
pub enum Outcome {
    /// The command line did not hold exactly one project name.
    Usage,
    /// The configuration file could not be opened or read.
    ConfigUnreadable { cause: String },
    /// The configuration file is not valid JSON or does not have the expected shape.
    ConfigMalformed { cause: String },
    /// No project has the requested name. Not a failure.
    NoMatch,
    /// Several projects have the requested name. Nothing was done.
    Duplicate,
    /// The project's path could not be entered.
    DirectoryUnavailable { cause: String },
    /// The new shell could not be started.
    SpawnFailed { cause: String },
    /// The new shell runs and the invoking shell was terminated.
    Replaced,
    /// The invoking shell could not be terminated; the new shell was stopped again.
    ParentSurvived { cause: String },
    /// Neither the invoking shell nor the new shell could be terminated.
    Stranded { parent_cause: String, child_cause: String },
    /// The driver reported something that does not answer the pending request.
    OutOfTurn,
}

/// What an [`Outcome`] is, mathematically: causes are character sequences.
pub ghost enum OutcomeView {
    Usage,
    ConfigUnreadable { cause: Seq<char> },
    ConfigMalformed { cause: Seq<char> },
    NoMatch,
    Duplicate,
    DirectoryUnavailable { cause: Seq<char> },
    SpawnFailed { cause: Seq<char> },
    Replaced,
    ParentSurvived { cause: Seq<char> },
    Stranded { parent_cause: Seq<char>, child_cause: Seq<char> },
    OutOfTurn,
}

impl View for Outcome {
    type V = OutcomeView;

    open spec fn view(&self) -> OutcomeView {
        match self {
            Outcome::Usage => OutcomeView::Usage,
            Outcome::ConfigUnreadable { cause } => OutcomeView::ConfigUnreadable { cause: cause@ },
            Outcome::ConfigMalformed { cause } => OutcomeView::ConfigMalformed { cause: cause@ },
            Outcome::NoMatch => OutcomeView::NoMatch,
            Outcome::Duplicate => OutcomeView::Duplicate,
            Outcome::DirectoryUnavailable { cause } => OutcomeView::DirectoryUnavailable {
                cause: cause@,
            },
            Outcome::SpawnFailed { cause } => OutcomeView::SpawnFailed { cause: cause@ },
            Outcome::Replaced => OutcomeView::Replaced,
            Outcome::ParentSurvived { cause } => OutcomeView::ParentSurvived { cause: cause@ },
            Outcome::Stranded { parent_cause, child_cause } => OutcomeView::Stranded {
                parent_cause: parent_cause@,
                child_cause: child_cause@,
            },
            Outcome::OutOfTurn => OutcomeView::OutOfTurn,
        }
    }
}

impl OutcomeView {
    /// The process exit status: zero for the two outcomes that are no failure,
    /// one for a wrong command line, and a status of its own for each failure.
    pub open spec fn status(self) -> int {
        match self {
            OutcomeView::Replaced => 0,
            OutcomeView::NoMatch => 0,
            OutcomeView::Usage => 1,
            OutcomeView::ConfigUnreadable { .. } => 2,
            OutcomeView::ConfigMalformed { .. } => 3,
            OutcomeView::Duplicate => 4,
            OutcomeView::DirectoryUnavailable { .. } => 5,
            OutcomeView::SpawnFailed { .. } => 6,
            OutcomeView::ParentSurvived { .. } => 7,
            OutcomeView::Stranded { .. } => 8,
            OutcomeView::OutOfTurn => 9,
        }
    }

    /// Whether the run failed.
    pub open spec fn is_failure(self) -> bool {
        !(self is Replaced || self is NoMatch)
    }

    /// The text shown to the user. A failure names the step that failed and
    /// then gives the cause.
    pub open spec fn text(self) -> Seq<char> {
        match self {
            OutcomeView::Usage => "Usage: goto <project_name>"@,
            OutcomeView::ConfigUnreadable { cause } => "Error: cannot read config: "@ + cause,
            OutcomeView::ConfigMalformed { cause } => "Error: cannot parse config: "@ + cause,
            OutcomeView::NoMatch => "No matches found"@,
            OutcomeView::Duplicate => "Unexpected error: check config file for duplicate keys"@,
            OutcomeView::DirectoryUnavailable { cause } => "Error: cannot change directory: "@
                + cause,
            OutcomeView::SpawnFailed { cause } => "Could not start new shell: "@ + cause,
            OutcomeView::Replaced => "killed"@,
            OutcomeView::ParentSurvived { cause } => "Could not kill parent shell: "@ + cause,
            OutcomeView::Stranded { parent_cause, child_cause } => "Could not kill parent shell: "@
                + parent_cause + "\nCould not kill child shell: "@ + child_cause,
            OutcomeView::OutOfTurn => "Unexpected error: reply does not answer the request"@,
        }
    }
}

/// A literal followed by a cause.
fn prefixed(prefix: &str, cause: &String) -> (text: String)
    ensures
        text@ == prefix@ + cause@,
{
    String::from_str(prefix).concat(cause.as_str())
}

impl Outcome {
    /// The process exit status of this outcome.
    pub fn exit_code(&self) -> (code: i32)
        ensures
            code == self@.status(),
            code != 0 <==> self@.is_failure(),
    {
        match self {
            Outcome::Replaced => 0,
            Outcome::NoMatch => 0,
            Outcome::Usage => 1,
            Outcome::ConfigUnreadable { .. } => 2,
            Outcome::ConfigMalformed { .. } => 3,
            Outcome::Duplicate => 4,
            Outcome::DirectoryUnavailable { .. } => 5,
            Outcome::SpawnFailed { .. } => 6,
            Outcome::ParentSurvived { .. } => 7,
            Outcome::Stranded { .. } => 8,
            Outcome::OutOfTurn => 9,
        }
    }

    /// The message for the user.
    pub fn message(&self) -> (text: String)
        ensures
            text@ == self@.text(),
    {
        match self {
            Outcome::Usage => String::from_str("Usage: goto <project_name>"),
            Outcome::ConfigUnreadable { cause } => prefixed("Error: cannot read config: ", cause),
            Outcome::ConfigMalformed { cause } => prefixed("Error: cannot parse config: ", cause),
            Outcome::NoMatch => String::from_str("No matches found"),
            Outcome::Duplicate => String::from_str(
                "Unexpected error: check config file for duplicate keys",
            ),
            Outcome::DirectoryUnavailable { cause } => prefixed(
                "Error: cannot change directory: ",
                cause,
            ),
            Outcome::SpawnFailed { cause } => prefixed("Could not start new shell: ", cause),
            Outcome::Replaced => String::from_str("killed"),
            Outcome::ParentSurvived { cause } => prefixed("Could not kill parent shell: ", cause),
            Outcome::Stranded { parent_cause, child_cause } => {
                let first = prefixed("Could not kill parent shell: ", parent_cause);
                let second = first.concat("\nCould not kill child shell: ");
                second.concat(child_cause.as_str())
            },
            Outcome::OutOfTurn => String::from_str(
                "Unexpected error: reply does not answer the request",
            ),
        }
    }
}

} // verus!
