//! One execution, step by step: which action comes next, what is logged
//! before it, and what the execution returns in the end.
//!
//! The library never starts a process. It says what to do next; whoever
//! drives it does that and reports what the operating system answered.

use vstd::prelude::*;
use vstd::string::*;
use crate::builder::EasyCommand;
use crate::command::CommandLineView;
use crate::error::{ExecuteError, RunErrorKind, SpawnAndWaitErrorKind};
use crate::modes::{run_result, spawn_and_wait_result, wraps, Attempt};
use crate::status::{ExitStatus, Output};
use crate::text::{code_debug, push_code_debug};

verus! {

/// The three ways to run a command.
#[derive(Clone, Copy, Debug, PartialEq, Eq, Structural)]
pub enum Mode {
    /// Start the process, wait for its end, and return the exit status.
    SpawnAndWait,
    /// As `SpawnAndWait`, but an unsuccessful end is an error.
    Run,
    /// Start the process with its output captured, and return the exit
    /// status and what it wrote.
    Output,
}

/// Where an execution stands.
#[derive(Clone, Copy, Debug, PartialEq, Eq, Structural)]
pub enum Stage {
    /// Nothing has been done yet.
    Unstarted,
    /// The process is being started.
    Spawning,
    /// The process runs, and its end is awaited.
    Waiting,
    /// The process is being run with its output captured.
    Collecting,
    /// The process could not be started. The execution is over.
    SpawnFailed,
    /// Waiting for the end of the process failed. The execution is over.
    WaitFailed,
    /// Running the process with captured output failed. The execution is
    /// over.
    CollectFailed,
    /// The process ended, and no judgement of its status was asked for. The
    /// execution is over.
    Exited,
    /// The process ended successfully in a run that asked for it. The
    /// execution is over.
    Success,
    /// The process ended without success in a run that asked for it. The
    /// execution is over.
    UnsuccessfulExit,
}

impl Stage {
    /// Whether the execution is over.
    pub open spec fn is_terminal(self) -> bool {
        !(self is Unstarted || self is Spawning || self is Waiting || self is Collecting)
    }
}

/// What the driver reports to an execution.
#[derive(Debug)]
pub enum Event {
    /// The caller asked for the execution.
    Start,
    /// The attempt to start the process has ended, well or with an error.
    Spawned(Result<(), std::io::Error>),
    /// The wait for the process has ended, with its exit status or an
    /// error.
    Waited(Result<ExitStatus, std::io::Error>),
    /// The run with captured output has ended, with the exit status and
    /// the output, or an error.
    Collected(Result<Output, std::io::Error>),
}

/// How loud a log record is.
#[derive(Clone, Copy, Debug, PartialEq, Eq, Structural)]
pub enum LogLevel {
    Debug,
    Trace,
}

/// One line for the log.
#[derive(Debug)]
pub struct LogRecord {
    pub level: LogLevel,
    pub message: String,
}

/// What an execution has returned once it is over, in the shape of its mode.
#[derive(Debug)]
pub enum Completion {
    SpawnAndWait(Result<ExitStatus, ExecuteError<SpawnAndWaitErrorKind>>),
    Run(Result<(), ExecuteError<RunErrorKind>>),
    Output(Result<Output, ExecuteError<std::io::Error>>),
}

/// What the driver has to do next.
#[derive(Debug)]
pub enum Action {
    /// Start the process, with the standard streams as the command has
    /// them, and report `Event::Spawned`.
    Spawn,
    /// Wait for the end of the process, and report `Event::Waited`.
    Wait,
    /// Run the process to its end with standard output and standard error
    /// captured, and report `Event::Collected`.
    Collect,
    /// Return this to the caller. Nothing is left to do.
    Finish(Completion),
}

/// The answer to an event: a record to log first, if any, and then the
/// action to take.
#[derive(Debug)]
pub struct Step {
    pub log: Option<LogRecord>,
    pub action: Action,
}

/// An execution: its mode, and where it stands.
#[derive(Clone, Copy, Debug, PartialEq, Eq, Structural)]
pub struct Execution {
    pub mode: Mode,
    pub stage: Stage,
}

/// The message logged before a process is started.
pub open spec fn spawning_message(display: Seq<char>) -> Seq<char> {
    "spawning child process with "@ + display + "\u{2026}"@
}

/// The message logged before the end of a process is awaited.
pub open spec fn waiting_message(display: Seq<char>) -> Seq<char> {
    "waiting for exit from "@ + display + "\u{2026}"@
}

/// The message logged before a process is run with its output captured.
pub open spec fn collecting_message(display: Seq<char>) -> Seq<char> {
    "getting output from "@ + display + "\u{2026}"@
}

/// The message logged after a process has ended.
pub open spec fn exited_message(code: Option<i32>, display: Seq<char>) -> Seq<char> {
    "received exit code "@ + code_debug(code) + " from "@ + display
}

/// What a log record says, as a level and a text.
pub open spec fn logged(log: Option<LogRecord>) -> Option<(LogLevel, Seq<char>)> {
    match log {
        Some(record) => Some((record.level, record.message@)),
        None => None,
    }
}

/// What came of the process, from the event that ends an execution in a
/// mode that starts the process and waits for it.
pub open spec fn attempt_of(event: Event) -> Attempt
    recommends
        event matches Event::Spawned(Err(_)) || event is Waited,
{
    match event {
        Event::Spawned(Err(e)) => Attempt::NotSpawned(e),
        Event::Waited(Err(e)) => Attempt::NotWaited(e),
        Event::Waited(Ok(status)) => Attempt::Exited(status),
        _ => arbitrary(),
    }
}

/// Whether `completion` is what an execution that started the process and
/// waited for it returns in its mode, for a command with the command line
/// `cmd`.
pub open spec fn completes(
    completion: Completion,
    mode: Mode,
    attempt: Attempt,
    cmd: CommandLineView,
) -> bool {
    match mode {
        Mode::SpawnAndWait => completion matches Completion::SpawnAndWait(returned) && wraps(
            returned,
            spawn_and_wait_result(attempt),
            cmd,
        ),
        Mode::Run => completion matches Completion::Run(returned) && wraps(
            returned,
            run_result(attempt),
            cmd,
        ),
        Mode::Output => false,
    }
}

impl Execution {
    /// Whether an event answers what the execution last asked for: the
    /// start while nothing is done, and after that the end of the one step
    /// that is under way, in a mode that takes that step.
    pub open spec fn accepts(self, event: Event) -> bool {
        match (self.stage, event) {
            (Stage::Unstarted, Event::Start) => true,
            (Stage::Spawning, Event::Spawned(_)) => !(self.mode is Output),
            (Stage::Waiting, Event::Waited(_)) => !(self.mode is Output),
            (Stage::Collecting, Event::Collected(_)) => self.mode is Output,
            _ => false,
        }
    }

    /// The stage in which a process that has ended leaves an execution.
    pub open spec fn stage_of_exit(mode: Mode, status: ExitStatus) -> Stage {
        match mode {
            Mode::Run => if status.success {
                Stage::Success
            } else {
                Stage::UnsuccessfulExit
            },
            _ => Stage::Exited,
        }
    }

    /// The stage that follows an accepted event.
    pub open spec fn stage_after(self, event: Event) -> Stage
        recommends
            self.accepts(event),
    {
        match event {
            Event::Start => if self.mode is Output {
                Stage::Collecting
            } else {
                Stage::Spawning
            },
            Event::Spawned(Ok(_)) => Stage::Waiting,
            Event::Spawned(Err(_)) => Stage::SpawnFailed,
            Event::Waited(Ok(status)) => Self::stage_of_exit(self.mode, status),
            Event::Waited(Err(_)) => Stage::WaitFailed,
            Event::Collected(Ok(_)) => Stage::Exited,
            Event::Collected(Err(_)) => Stage::CollectFailed,
        }
    }

    /// The execution after an event: the same mode at the next stage, or
    /// `None` where the execution does not accept the event.
    pub open spec fn after(self, event: Event) -> Option<Execution> {
        if self.accepts(event) {
            Some(Execution { mode: self.mode, stage: self.stage_after(event) })
        } else {
            None
        }
    }

    /// What is logged in answer to an accepted event, for a command that
    /// is shown as `display`: a level and a message, or nothing.
    pub open spec fn log_after(self, event: Event, display: Seq<char>) -> Option<
        (LogLevel, Seq<char>),
    >
        recommends
            self.accepts(event),
    {
        match event {
            Event::Start => Some(
                if self.mode is Output {
                    (LogLevel::Debug, collecting_message(display))
                } else {
                    (LogLevel::Debug, spawning_message(display))
                },
            ),
            Event::Spawned(Ok(_)) => Some((LogLevel::Trace, waiting_message(display))),
            Event::Waited(Ok(status)) => Some(
                (LogLevel::Debug, exited_message(status.code, display)),
            ),
            Event::Collected(Ok(output)) => Some(
                (LogLevel::Debug, exited_message(output.status.code, display)),
            ),
            _ => None,
        }
    }

    /// Whether `action` is the action that answers an accepted event, for
    /// a command with the command line `cmd`.
    pub open spec fn action_after(self, event: Event, cmd: CommandLineView, action: Action) -> bool
        recommends
            self.accepts(event),
    {
        match event {
            Event::Start => if self.mode is Output {
                action is Collect
            } else {
                action is Spawn
            },
            Event::Spawned(Ok(_)) => action is Wait,
            Event::Spawned(Err(_)) | Event::Waited(_) => {
                action matches Action::Finish(completion) && completes(
                    completion,
                    self.mode,
                    attempt_of(event),
                    cmd,
                )
            },
            Event::Collected(collected) => {
                action matches Action::Finish(Completion::Output(returned)) && wraps(
                    returned,
                    collected,
                    cmd,
                )
            },
        }
    }

    /// An execution in a mode, with nothing done yet.
    pub fn new(mode: Mode) -> (at: Execution)
        ensures
            at == (Execution { mode, stage: Stage::Unstarted }),
    {
        Execution { mode, stage: Stage::Unstarted }
    }

    /// Whether the execution accepts an event.
    pub fn accepts_event(&self, event: &Event) -> (accepted: bool)
        ensures
            accepted == self.accepts(*event),
    {
        let captures = match self.mode {
            Mode::Output => true,
            _ => false,
        };
        match self.stage {
            Stage::Unstarted => match event {
                Event::Start => true,
                _ => false,
            },
            Stage::Spawning => match event {
                Event::Spawned(_) => !captures,
                _ => false,
            },
            Stage::Waiting => match event {
                Event::Waited(_) => !captures,
                _ => false,
            },
            Stage::Collecting => match event {
                Event::Collected(_) => captures,
                _ => false,
            },
            _ => false,
        }
    }

    /// Whether the execution is over.
    pub fn is_finished(&self) -> (over: bool)
        ensures
            over == self.stage.is_terminal(),
    {
        match self.stage {
            Stage::Unstarted | Stage::Spawning | Stage::Waiting | Stage::Collecting => false,
            _ => true,
        }
    }
}

impl LogRecord {
    /// A record whose message is the command's display form between two
    /// texts.
    fn around(level: LogLevel, before: &str, display: &str, after: &str) -> (record: LogRecord)
        ensures
            record.level == level,
            record.message@ == before@ + display@ + after@,
    {
        let mut message = String::from_str(before);
        message.append(display);
        message.append(after);
        LogRecord { level, message }
    }

    /// The record that is logged before the process of a command, shown as
    /// `display`, is started.
    pub fn spawning(display: &str) -> (record: LogRecord)
        ensures
            logged(Some(record)) == Some((LogLevel::Debug, spawning_message(display@))),
    {
        Self::around(LogLevel::Debug, "spawning child process with ", display, "\u{2026}")
    }

    /// The record that is logged before the end of the process is awaited.
    pub fn waiting(display: &str) -> (record: LogRecord)
        ensures
            logged(Some(record)) == Some((LogLevel::Trace, waiting_message(display@))),
    {
        Self::around(LogLevel::Trace, "waiting for exit from ", display, "\u{2026}")
    }

    /// The record that is logged before the process is run with its output
    /// captured.
    pub fn collecting(display: &str) -> (record: LogRecord)
        ensures
            logged(Some(record)) == Some((LogLevel::Debug, collecting_message(display@))),
    {
        Self::around(LogLevel::Debug, "getting output from ", display, "\u{2026}")
    }

    /// The record that is logged after the process has ended with an exit
    /// code, or with none.
    pub fn exited(code: Option<i32>, display: &str) -> (record: LogRecord)
        ensures
            logged(Some(record)) == Some((LogLevel::Debug, exited_message(code, display@))),
    {
        let mut message = String::from_str("received exit code ");
        push_code_debug(&mut message, code);
        message.append(" from ");
        message.append(display);
        LogRecord { level: LogLevel::Debug, message }
    }
}

impl EasyCommand {
    /// What an execution that started the process and waited for it
    /// returns, in the shape of its mode.
    fn complete(&mut self, mode: Mode, attempt: Attempt) -> (completion: Completion)
        requires
            !(mode is Output),
        ensures
            *final(self) == *old(self),
            completes(completion, mode, attempt, old(self)@),
    {
        match mode {
            Mode::Run => Completion::Run(self.run(attempt)),
            _ => Completion::SpawnAndWait(self.spawn_and_wait(attempt)),
        }
    }

    /// Answers an event in an execution of this command: the execution as
    /// it stands after the event, what to log, and what to do next. An
    /// event that does not answer what the execution last asked for is
    /// refused with `None`, and so is every event once the execution is
    /// over.
    ///
    /// An execution starts the process at most once, waits only for a
    /// process that was started, and ends with the first step that fails.
    /// Whatever it returns to the caller as a failure names this command.
    pub fn step(&mut self, at: Execution, event: Event) -> (next: Option<(Execution, Step)>)
        ensures
            *final(self) == *old(self),
            match next {
                Some((state, step)) => {
                    &&& at.after(event) == Some(state)
                    &&& logged(step.log) == at.log_after(event, old(self)@.display())
                    &&& at.action_after(event, old(self)@, step.action)
                },
                None => at.after(event) is None,
            },
    {
        if !at.accepts_event(&event) {
            return None;
        }
        let mode = at.mode;
        let display = self.to_string();
        let (stage, log, action) = match event {
            Event::Start => match mode {
                Mode::Output => (
                    Stage::Collecting,
                    Some(LogRecord::collecting(display.as_str())),
                    Action::Collect,
                ),
                _ => (
                    Stage::Spawning,
                    Some(LogRecord::spawning(display.as_str())),
                    Action::Spawn,
                ),
            },
            Event::Spawned(Ok(_)) => (
                Stage::Waiting,
                Some(LogRecord::waiting(display.as_str())),
                Action::Wait,
            ),
            Event::Spawned(Err(source)) => (
                Stage::SpawnFailed,
                None,
                Action::Finish(self.complete(mode, Attempt::NotSpawned(source))),
            ),
            Event::Waited(Ok(status)) => {
                let stage = match mode {
                    Mode::Run => if status.success() {
                        Stage::Success
                    } else {
                        Stage::UnsuccessfulExit
                    },
                    _ => Stage::Exited,
                };
                (
                    stage,
                    Some(LogRecord::exited(status.code(), display.as_str())),
                    Action::Finish(self.complete(mode, Attempt::Exited(status))),
                )
            },
            Event::Waited(Err(source)) => (
                Stage::WaitFailed,
                None,
                Action::Finish(self.complete(mode, Attempt::NotWaited(source))),
            ),
            Event::Collected(Ok(output)) => (
                Stage::Exited,
                Some(LogRecord::exited(output.status.code(), display.as_str())),
                Action::Finish(Completion::Output(self.output(Ok(output)))),
            ),
            Event::Collected(Err(source)) => (
                Stage::CollectFailed,
                None,
                Action::Finish(Completion::Output(self.output(Err(source)))),
            ),
        };
        Some((Execution { mode, stage }, Step { log, action }))
    }
}

} // verus!
