//! The three ways to run a command, as judgements of what the operating
//! system made of the run.

use vstd::prelude::*;
use crate::builder::EasyCommand;
use crate::command::CommandLineView;
use crate::error::{ExecuteError, RunErrorKind, SpawnAndWaitErrorKind};
use crate::quoting::shell_split;
use crate::status::{ExitStatus, Output};

verus! {

/// What came of starting a process and waiting for its end.
#[derive(Debug)]
pub enum Attempt {
    /// The process could not be started.
    NotSpawned(std::io::Error),
    /// The process was started, but waiting for its end failed.
    NotWaited(std::io::Error),
    /// The process ran to its end.
    Exited(ExitStatus),
}

/// What running a command and waiting for its end returns, before the
/// command's name is attached to a failure: the status of a process that
/// ended, whatever it is, and the failed step otherwise.
pub open spec fn spawn_and_wait_result(attempt: Attempt) -> Result<
    ExitStatus,
    SpawnAndWaitErrorKind,
> {
    match attempt {
        Attempt::NotSpawned(source) => Err(SpawnAndWaitErrorKind::Spawn { source }),
        Attempt::NotWaited(source) => Err(SpawnAndWaitErrorKind::WaitForExitCode { source }),
        Attempt::Exited(status) => Ok(status),
    }
}

/// What running a command to a successful end returns, before the command's
/// name is attached to a failure: a failed step is passed on as it is, and a
/// process that ended without success becomes an error that carries its code.
pub open spec fn run_result(attempt: Attempt) -> Result<(), RunErrorKind> {
    match spawn_and_wait_result(attempt) {
        Err(kind) => Err(RunErrorKind::SpawnAndWait(kind)),
        Ok(status) => if status.success {
            Ok(())
        } else {
            Err(RunErrorKind::UnsuccessfulExitCode { code: status.code })
        },
    }
}

/// The rule by which every mode wraps its result: a success is returned as
/// it is, and a failure is returned inside an error that holds the
/// shell-quoted command line of the command, from which a shell-word
/// tokenizer reads the program and the arguments back.
pub open spec fn wraps<T, K>(
    returned: Result<T, ExecuteError<K>>,
    inner: Result<T, K>,
    cmd: CommandLineView,
) -> bool {
    match returned {
        Ok(value) => inner == Ok::<T, K>(value),
        Err(error) => {
            &&& inner == Err::<T, K>(error.cause())
            &&& error.invocation() == cmd.shell_words()
            &&& shell_split(error.invocation()) == Some(cmd.words())
        },
    }
}

impl EasyCommand {
    fn spawn_and_wait_impl(attempt: Attempt) -> (result: Result<ExitStatus, SpawnAndWaitErrorKind>)
        ensures
            result == spawn_and_wait_result(attempt),
    {
        match attempt {
            Attempt::NotSpawned(source) => Err(SpawnAndWaitErrorKind::Spawn { source }),
            Attempt::NotWaited(source) => Err(SpawnAndWaitErrorKind::WaitForExitCode { source }),
            Attempt::Exited(status) => Ok(status),
        }
    }

    /// Reports a run of this command that waited for the process to end:
    /// the exit status, successful or not, where the process ended, and
    /// otherwise the step that failed, under the command's name.
    pub fn spawn_and_wait(&mut self, attempt: Attempt) -> (result: Result<
        ExitStatus,
        ExecuteError<SpawnAndWaitErrorKind>,
    >)
        ensures
            *final(self) == *old(self),
            wraps(result, spawn_and_wait_result(attempt), old(self)@),
    {
        match Self::spawn_and_wait_impl(attempt) {
            Ok(status) => Ok(status),
            Err(source) => Err(ExecuteError::new(self, source)),
        }
    }

    fn run_impl(attempt: Attempt) -> (result: Result<(), RunErrorKind>)
        ensures
            result == run_result(attempt),
    {
        match Self::spawn_and_wait_impl(attempt) {
            Err(kind) => Err(RunErrorKind::SpawnAndWait(kind)),
            Ok(status) => {
                if status.success() {
                    Ok(())
                } else {
                    Err(RunErrorKind::UnsuccessfulExitCode { code: status.code() })
                }
            },
        }
    }

    /// Reports a run of this command that was meant to succeed: nothing
    /// where the process ended successfully, and otherwise, under the
    /// command's name, the step that failed or the exit code of the
    /// unsuccessful end.
    pub fn run(&mut self, attempt: Attempt) -> (result: Result<(), ExecuteError<RunErrorKind>>)
        ensures
            *final(self) == *old(self),
            wraps(result, run_result(attempt), old(self)@),
    {
        match Self::run_impl(attempt) {
            Ok(()) => Ok(()),
            Err(source) => Err(ExecuteError::new(self, source)),
        }
    }

    /// Reports a run of this command that captured what the process wrote:
    /// the exit status and both captured streams where the process ended,
    /// and otherwise the operating system's error, under the command's name.
    pub fn output(&mut self, attempt: Result<Output, std::io::Error>) -> (result: Result<
        Output,
        ExecuteError<std::io::Error>,
    >)
        ensures
            *final(self) == *old(self),
            wraps(result, attempt, old(self)@),
    {
        match attempt {
            Ok(output) => Ok(output),
            Err(source) => Err(ExecuteError::new(self, source)),
        }
    }
}

} // verus!
