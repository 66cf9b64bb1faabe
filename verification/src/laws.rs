//! What holds of the library as a whole, proved from the contracts of its
//! functions.

use vstd::prelude::*;
use crate::builder::EasyCommand;
use crate::command::{slice_views, CommandLine, CommandLineView};
use crate::error::{failed_to_execute, ExecuteError, RunErrorKind};
use crate::lifecycle::{Action, Event, Execution, Mode, Stage};
use crate::modes::{run_result, spawn_and_wait_result, wraps, Attempt};

verus! {

/// The three constructors agree: a command made from a program alone, one
/// made with a customization that gives back the command line it was
/// handed, and one made with an empty list of arguments are the same
/// command line, and so are rendered alike, with and without backticks.
pub proof fn lemma_constructors_agree<F: FnOnce(CommandLine) -> CommandLine>(
    program: Seq<char>,
    customize: F,
    plain: EasyCommand,
    customized: EasyCommand,
    simple: EasyCommand,
)
    requires
        plain@ == CommandLineView::start(program),
        forall|line: CommandLine, out: CommandLine| #[trigger]
            customize.ensures((line,), out) ==> out@ == line@,
        exists|line: CommandLine|
            line@ == CommandLineView::start(program) && #[trigger] customize.ensures(
                (line,),
                customized.configuration(),
            ),
        simple@ == CommandLineView::start(program).with_args(slice_views(Seq::<&str>::empty())),
    ensures
        customized@ == plain@,
        simple@ == plain@,
        customized@.shell_words() == plain@.shell_words(),
        simple@.shell_words() == plain@.shell_words(),
        customized@.display() == plain@.display(),
        simple@.display() == plain@.display(),
{
    assert(simple@.args =~= plain@.args);
}

/// Adding arguments one list after another is adding them all at once.
pub proof fn lemma_args_accumulate(line: CommandLineView, first: Seq<Seq<char>>, second: Seq<Seq<char>>)
    ensures
        line.with_args(first).with_args(second) == line.with_args(first + second),
        line.with_args(first).words() == line.words() + first,
{
    assert(line.args + first + second =~= line.args + (first + second));
    assert(seq![line.program] + (line.args + first) =~= (seq![line.program] + line.args) + first);
}

/// Every failure names its command: whatever a mode returns as an error
/// shows `failed to execute ` and then the shell-quoted command line of the
/// command that was run.
pub proof fn lemma_failure_names_command<T, K>(
    returned: Result<T, ExecuteError<K>>,
    inner: Result<T, K>,
    cmd: CommandLineView,
)
    requires
        wraps(returned, inner, cmd),
    ensures
        returned is Err <==> inner is Err,
        returned matches Err(error) ==> error.message() == failed_to_execute() + cmd.shell_words(),
{
}

/// A run that is meant to succeed judges what running and waiting returns,
/// and changes nothing else: it succeeds exactly on a status that reports
/// success, passes a failed step on as it is, and turns any other status
/// into an error that carries the status's code.
pub proof fn lemma_run_judges_spawn_and_wait(attempt: Attempt)
    ensures
        run_result(attempt) is Ok <==> (spawn_and_wait_result(attempt) matches Ok(status)
            && status.success),
        spawn_and_wait_result(attempt) matches Err(kind) ==> run_result(attempt) == Err::<
            (),
            RunErrorKind,
        >(RunErrorKind::SpawnAndWait(kind)),
        spawn_and_wait_result(attempt) matches Ok(status) ==> (!status.success ==> run_result(
            attempt,
        ) == Err::<(), RunErrorKind>(RunErrorKind::UnsuccessfulExitCode { code: status.code })),
{
}

/// An execution only moves forward, and ends when it should: an accepted
/// event keeps the mode, the answer is a final one exactly when the stage
/// that follows is terminal, and a terminal stage accepts no event.
pub proof fn lemma_execution_ends(at: Execution, event: Event, cmd: CommandLineView, action: Action)
    ensures
        at.stage.is_terminal() ==> at.after(event) is None,
        at.after(event) matches Some(next) ==> {
            &&& next.mode == at.mode
            &&& next.stage != at.stage
            &&& !(next.stage is Unstarted)
            &&& at.action_after(event, cmd, action) ==> (action is Finish
                <==> next.stage.is_terminal())
        },
{
}

/// An execution is over after three events at most, and after two where the
/// output is captured.
pub proof fn lemma_execution_is_short(mode: Mode, first: Event, second: Event, third: Event)
    ensures
        ({
            let start = Execution { mode, stage: Stage::Unstarted };
            start.after(first) matches Some(one) ==> (one.after(second) matches Some(two) ==> {
                &&& mode is Output ==> two.stage.is_terminal()
                &&& two.after(third) matches Some(three) ==> three.stage.is_terminal()
            })
        }),
{
}

/// The process is started at most once, and its end is awaited only after
/// it was started: the only event that is answered by starting the process
/// is the start of the execution, and the only one that is answered by
/// waiting is the report that the process was started.
pub proof fn lemma_steps_in_order(at: Execution, event: Event, cmd: CommandLineView, action: Action)
    requires
        at.accepts(event),
        at.action_after(event, cmd, action),
    ensures
        action is Spawn || action is Collect ==> at.stage is Unstarted && event is Start,
        action is Spawn ==> !(at.mode is Output),
        action is Collect ==> at.mode is Output,
        action is Wait ==> at.stage is Spawning && event matches Event::Spawned(Ok(_)),
{
}

/// Running to success and running for the status differ only in the last
/// judgement: until the process has ended, both take the same steps.
pub proof fn lemma_run_walks_like_spawn_and_wait(stage: Stage, event: Event)
    requires
        !(event matches Event::Waited(Ok(_))),
    ensures
        ({
            let run = Execution { mode: Mode::Run, stage };
            let plain = Execution { mode: Mode::SpawnAndWait, stage };
            &&& run.accepts(event) == plain.accepts(event)
            &&& run.accepts(event) ==> run.stage_after(event) == plain.stage_after(event)
        }),
{
}

} // verus!
