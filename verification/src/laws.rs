//! What holds of every run.
//!
//! The first part follows single steps: what each failure and each result of
//! the lookup leads to. The second part follows whole runs, whatever the
//! driver reports: a request to touch the outside world is only ever made in
//! its turn and after everything before it has succeeded, and a run that has
//! ended asks for nothing more.

use vstd::prelude::*;
use crate::config::ProjectView;
use crate::outcome::OutcomeView;
use crate::replacer::{chosen_shell, ReplacerStateView};
use crate::resolver::{
    absent_name_is_not_found, repeated_name_is_duplicate, resolution_of, unique_name_is_found,
};
use crate::session::{ended, next, run, started, ReplyView, RequestView, SessionView};

verus! {

/// A command line that does not hold exactly one argument after the program's
/// name ends the run at once: the usage message, exit status one, and no
/// request to read the configuration.
pub proof fn wrong_arity_is_usage(args: Seq<Seq<char>>, config_path: Seq<char>)
    requires
        args.len() != 2,
    ensures
        started(args, config_path) == ended(OutcomeView::Usage),
        OutcomeView::Usage.status() == 1,
        OutcomeView::Usage.text() == "Usage: goto <project_name>"@,
{
}

/// A configuration file that cannot be read ends the run with a failure that
/// carries the cause.
pub proof fn unreadable_config_ends_run(target: Seq<char>, cause: Seq<char>)
    ensures
        next(SessionView::ReadingConfig { target }, ReplyView::Failed { cause }) == ended(
            OutcomeView::ConfigUnreadable { cause },
        ),
        (OutcomeView::ConfigUnreadable { cause }).is_failure(),
        (OutcomeView::ConfigUnreadable { cause }).status() != 0,
{
}

/// A configuration text that cannot be parsed ends the run with a failure
/// that carries the cause.
pub proof fn malformed_config_ends_run(target: Seq<char>, cause: Seq<char>)
    ensures
        next(SessionView::ParsingConfig { target }, ReplyView::Failed { cause }) == ended(
            OutcomeView::ConfigMalformed { cause },
        ),
        (OutcomeView::ConfigMalformed { cause }).is_failure(),
        (OutcomeView::ConfigMalformed { cause }).status() != 0,
{
}

/// Looking up a name that exactly one project has asks for a change into that
/// project's path, whatever the other projects are.
pub proof fn unique_name_enters_its_directory(
    config: Seq<ProjectView>,
    target: Seq<char>,
    at: int,
)
    requires
        0 <= at < config.len(),
        config[at].name == target,
        forall|k: int| 0 <= k < config.len() && k != at ==> config[k].name != target,
    ensures
        next(SessionView::ParsingConfig { target }, ReplyView::Parsed { config }) == (
            SessionView::ChangingDir,
            RequestView::ChangeDir { path: config[at].path },
        ),
{
    unique_name_is_found(config, target, at);
}

/// Looking up a name that no project has ends the run with `NoMatch`, which
/// is no failure: the exit status is zero.
pub proof fn absent_name_ends_run(config: Seq<ProjectView>, target: Seq<char>)
    requires
        forall|k: int| 0 <= k < config.len() ==> config[k].name != target,
    ensures
        next(SessionView::ParsingConfig { target }, ReplyView::Parsed { config }) == ended(
            OutcomeView::NoMatch,
        ),
        OutcomeView::NoMatch.status() == 0,
{
    absent_name_is_not_found(config, target);
}

/// Looking up a name that two projects share ends the run with `Duplicate`,
/// which is a failure.
pub proof fn repeated_name_ends_run(
    config: Seq<ProjectView>,
    target: Seq<char>,
    first: int,
    second: int,
)
    requires
        0 <= first < config.len(),
        0 <= second < config.len(),
        first != second,
        config[first].name == target,
        config[second].name == target,
    ensures
        next(SessionView::ParsingConfig { target }, ReplyView::Parsed { config }) == ended(
            OutcomeView::Duplicate,
        ),
        OutcomeView::Duplicate.status() != 0,
{
    repeated_name_is_duplicate(config, target, first, second);
}

/// A directory that cannot be entered ends the run with a failure that
/// carries the cause.
pub proof fn unavailable_directory_ends_run(cause: Seq<char>)
    ensures
        next(SessionView::ChangingDir, ReplyView::Failed { cause }) == ended(
            OutcomeView::DirectoryUnavailable { cause },
        ),
        (OutcomeView::DirectoryUnavailable { cause }).status() != 0,
{
}

/// A run that has ended stays ended: whatever is reported afterwards, the
/// only request is to exit.
pub proof fn ended_run_stays_ended(outcome: OutcomeView, replies: Seq<ReplyView>)
    ensures
        run(ended(outcome), replies).0 is Finished,
        run(ended(outcome), replies).1 is Exit,
    decreases replies.len(),
{
    if replies.len() > 0 {
        ended_run_stays_ended(outcome, replies.drop_last());
    }
}

/// Reporting `head` and then `tail` leads where reporting `tail` leads from
/// where `head` has led.
pub proof fn run_in_two_parts(
    first: (SessionView, RequestView),
    head: Seq<ReplyView>,
    tail: Seq<ReplyView>,
)
    ensures
        run(first, head + tail) == run(run(first, head), tail),
    decreases tail.len(),
{
    if tail.len() == 0 {
        assert(head + tail =~= head);
    } else {
        run_in_two_parts(first, head, tail.drop_last());
        assert((head + tail).drop_last() =~= head + tail.drop_last());
        assert((head + tail).last() == tail.last());
    }
}

/// Once a run from the command line has asked to exit, it asks for nothing
/// else, whatever is reported afterwards.
pub proof fn nothing_follows_exit(
    args: Seq<Seq<char>>,
    config_path: Seq<char>,
    replies: Seq<ReplyView>,
    more: Seq<ReplyView>,
)
    requires
        run(started(args, config_path), replies).1 is Exit,
    ensures
        run(started(args, config_path), replies + more).1 is Exit,
{
    let first = started(args, config_path);
    run_keeps_order(args, config_path, replies);
    run_in_two_parts(first, replies, more);
    let reached = run(first, replies);
    assert(reached == ended(reached.1->outcome));
    ended_run_stays_ended(reached.1->outcome, more);
}

/// The configuration was read and parsed, and exactly one project has the
/// requested name.
pub open spec fn matched(args: Seq<Seq<char>>, replies: Seq<ReplyView>) -> bool {
    &&& args.len() == 2
    &&& replies.len() >= 2
    &&& replies[0] is Text
    &&& replies[1] is Parsed
    &&& resolution_of(replies[1]->config, args[1]) is Unique
}

/// The path of the project that was found.
pub open spec fn destination(args: Seq<Seq<char>>, replies: Seq<ReplyView>) -> Seq<char> {
    resolution_of(replies[1]->config, args[1])->Unique_0.path
}

/// The project was found and its directory was entered.
pub open spec fn entered(args: Seq<Seq<char>>, replies: Seq<ReplyView>) -> bool {
    &&& matched(args, replies)
    &&& replies.len() >= 3
    &&& replies[2] is Done
}

/// The directory was entered and the process was inspected.
pub open spec fn inspected(args: Seq<Seq<char>>, replies: Seq<ReplyView>) -> bool {
    &&& entered(args, replies)
    &&& replies.len() >= 4
    &&& replies[3] is Process
}

/// The process was inspected and the new shell was started.
pub open spec fn spawned(args: Seq<Seq<char>>, replies: Seq<ReplyView>) -> bool {
    &&& inspected(args, replies)
    &&& replies.len() >= 5
    &&& replies[4] is Done
}

/// The new shell was started and the parent could not be terminated.
pub open spec fn parent_survived(args: Seq<Seq<char>>, replies: Seq<ReplyView>) -> bool {
    &&& spawned(args, replies)
    &&& replies.len() >= 6
    &&& replies[5] is Failed
}

/// The stage of a run from the command line, its pending request and what was
/// reported so far fit together.
pub open spec fn in_order(
    args: Seq<Seq<char>>,
    config_path: Seq<char>,
    replies: Seq<ReplyView>,
) -> bool {
    let (stage, request) = run(started(args, config_path), replies);
    match stage {
        SessionView::ReadingConfig { target } => {
            &&& replies.len() == 0
            &&& args.len() == 2
            &&& target == args[1]
            &&& request == RequestView::ReadConfig { path: config_path }
        },
        SessionView::ParsingConfig { target } => {
            &&& replies.len() == 1
            &&& args.len() == 2
            &&& target == args[1]
            &&& replies[0] is Text
            &&& request == RequestView::ParseConfig { text: replies[0]->text }
        },
        SessionView::ChangingDir => {
            &&& replies.len() == 2
            &&& matched(args, replies)
            &&& request == RequestView::ChangeDir { path: destination(args, replies) }
        },
        SessionView::InspectingProcess => {
            &&& replies.len() == 3
            &&& entered(args, replies)
            &&& request == RequestView::InspectProcess
        },
        SessionView::Replacing { replacer } => match replacer {
            ReplacerStateView::Idle { parent } => {
                &&& replies.len() == 4
                &&& inspected(args, replies)
                &&& parent == replies[3]->parent
                &&& request == RequestView::SpawnShell {
                    program: chosen_shell(replies[3]->shell),
                }
            },
            ReplacerStateView::ChildSpawned => {
                &&& replies.len() == 5
                &&& spawned(args, replies)
                &&& request == RequestView::KillParent { pid: replies[3]->parent }
            },
            ReplacerStateView::ParentKillFailed { cause } => {
                &&& replies.len() == 6
                &&& parent_survived(args, replies)
                &&& cause == replies[5]->cause
                &&& request == RequestView::KillChild
            },
            _ => false,
        },
        SessionView::Finished => request is Exit,
    }
}

/// Every run from the command line keeps the order of the steps, whatever
/// the driver reports: each request to touch the outside world is made in its
/// turn only, and only after all the steps before it have succeeded.
///
/// In particular a directory is entered only after the configuration was
/// loaded and the name was found exactly once, and it is that project's
/// directory; a shell is started only after the directory was entered; and
/// the signal goes to the process id that was read before the shell was
/// started. Each kind of request has one turn, so nothing is tried twice.
pub proof fn run_keeps_order(
    args: Seq<Seq<char>>,
    config_path: Seq<char>,
    replies: Seq<ReplyView>,
)
    ensures
        in_order(args, config_path, replies),
        ({
            let request = run(started(args, config_path), replies).1;
            &&& request is ReadConfig ==> replies.len() == 0
            &&& request is ParseConfig ==> replies.len() == 1 && replies[0] is Text
            &&& request is ChangeDir ==> replies.len() == 2 && matched(args, replies)
                && request->ChangeDir_path == destination(args, replies)
            &&& request is InspectProcess ==> replies.len() == 3 && entered(args, replies)
            &&& request is SpawnShell ==> replies.len() == 4 && inspected(args, replies)
                && request->program == chosen_shell(replies[3]->shell)
            &&& request is KillParent ==> replies.len() == 5 && spawned(args, replies)
                && request->pid == replies[3]->parent
            &&& request is KillChild ==> replies.len() == 6 && parent_survived(args, replies)
        }),
    decreases replies.len(),
{
    if replies.len() > 0 {
        let earlier = replies.drop_last();
        run_keeps_order(args, config_path, earlier);
        assert(forall|k: int| 0 <= k < earlier.len() ==> earlier[k] == replies[k]);
    }
}

/// Whether a request asks to change anything outside the program: to enter a
/// directory, to start a process or to stop one.
pub open spec fn changes_something(request: RequestView) -> bool {
    request is ChangeDir || request is SpawnShell || request is KillParent || request is KillChild
}

/// Unless the configuration was read and parsed and holds the requested name
/// exactly once, a run changes nothing: not when the command line is wrong,
/// not when the file is missing or malformed, not when the name is absent or
/// repeated.
pub proof fn nothing_changes_without_unique_match(
    args: Seq<Seq<char>>,
    config_path: Seq<char>,
    replies: Seq<ReplyView>,
)
    requires
        !matched(args, replies),
    ensures
        !changes_something(run(started(args, config_path), replies).1),
{
    run_keeps_order(args, config_path, replies);
}

/// Unless the project's directory was entered, no shell is started and no
/// process is signalled.
pub proof fn no_shell_without_directory(
    args: Seq<Seq<char>>,
    config_path: Seq<char>,
    replies: Seq<ReplyView>,
)
    requires
        !entered(args, replies),
    ensures
        ({
            let request = run(started(args, config_path), replies).1;
            !(request is SpawnShell) && !(request is KillParent) && !(request is KillChild)
        }),
{
    run_keeps_order(args, config_path, replies);
}

} // verus!
