//! The errors of an execution: which command failed, and how.

use vstd::prelude::*;
use vstd::string::*;
use crate::builder::EasyCommand;
use crate::quoting::shell_split;
use crate::text::{code_debug, push_code_debug};

verus! {

/// The operating system's own error. The library carries it from the failed
/// step into the error that it returns, and never looks inside.
#[verifier::external_type_specification]
#[verifier::external_body]
pub struct ExIoError(std::io::Error);

/// The shell-quoted command line of a command, copied out when the command is
/// run, so that an error can name the command without holding on to it.
#[derive(Debug)]
pub struct EasyCommandInvocation {
    shell_words: String,
}

impl View for EasyCommandInvocation {
    type V = Seq<char>;

    closed spec fn view(&self) -> Seq<char> {
        self.shell_words@
    }
}

impl EasyCommandInvocation {
    /// The shell-quoted command line of `cmd` as it is now.
    pub fn new(cmd: &EasyCommand) -> (invocation: EasyCommandInvocation)
        ensures
            invocation@ == cmd@.shell_words(),
            shell_split(invocation@) == Some(cmd@.words()),
    {
        EasyCommandInvocation { shell_words: cmd.shell_words() }
    }

    /// The shell-quoted command line.
    pub fn as_str(&self) -> (text: &str)
        ensures
            text@ == self@,
    {
        self.shell_words.as_str()
    }

    /// The shell-quoted command line, as it is shown inside an error message.
    pub fn to_string(&self) -> (text: String)
        ensures
            text@ == self@,
    {
        self.shell_words.clone()
    }
}

/// The text that every execution error starts with.
pub open spec fn failed_to_execute() -> Seq<char> {
    "failed to execute "@
}

/// The message of an error about the command with the given shell-quoted
/// command line.
pub fn failure_message(shell_words: &str) -> (text: String)
    ensures
        text@ == failed_to_execute() + shell_words@,
{
    let mut text = String::from_str("failed to execute ");
    text.append(shell_words);
    text
}

/// An error of one execution: the command that was run, and what went wrong
/// with it.
#[derive(Debug)]
pub struct ExecuteError<E> {
    cmd: EasyCommandInvocation,
    /// What went wrong.
    pub source: E,
}

impl<E> ExecuteError<E> {
    /// The shell-quoted command line of the command that failed.
    pub closed spec fn invocation(self) -> Seq<char> {
        self.cmd@
    }

    /// What went wrong: the value of the field `source`.
    pub closed spec fn cause(self) -> E {
        self.source
    }

    /// The message of the error: `failed to execute `, then the command line.
    pub open spec fn message(self) -> Seq<char> {
        failed_to_execute() + self.invocation()
    }

    /// Wraps what went wrong with the command line of `cmd` as it is now.
    pub fn new(cmd: &EasyCommand, source: E) -> (error: ExecuteError<E>)
        ensures
            error.invocation() == cmd@.shell_words(),
            shell_split(error.invocation()) == Some(cmd@.words()),
            error.cause() == source,
    {
        ExecuteError { cmd: EasyCommandInvocation::new(cmd), source }
    }

    /// What went wrong, taken out of the error.
    pub fn into_source(self) -> (source: E)
        ensures
            source == self.cause(),
    {
        self.source
    }

    /// The shell-quoted command line of the command that failed.
    pub fn command(&self) -> (text: &str)
        ensures
            text@ == self.invocation(),
    {
        self.cmd.as_str()
    }

    /// The message of the error.
    pub fn to_string(&self) -> (text: String)
        ensures
            text@ == self.message(),
    {
        failure_message(self.cmd.as_str())
    }
}

/// Why running a command and waiting for its end failed.
#[derive(Debug)]
pub enum SpawnAndWaitErrorKind {
    /// The process could not be started.
    Spawn { source: std::io::Error },
    /// The process was started, but waiting for its end failed.
    WaitForExitCode { source: std::io::Error },
}

impl SpawnAndWaitErrorKind {
    /// The message of each kind.
    pub open spec fn message(self) -> Seq<char> {
        match self {
            SpawnAndWaitErrorKind::Spawn { .. } => "failed to spawn"@,
            SpawnAndWaitErrorKind::WaitForExitCode { .. } => "failed to wait for exit code"@,
        }
    }

    /// The operating system's error that the kind carries.
    pub open spec fn cause(self) -> std::io::Error {
        match self {
            SpawnAndWaitErrorKind::Spawn { source } => source,
            SpawnAndWaitErrorKind::WaitForExitCode { source } => source,
        }
    }

    /// The message of the error.
    pub fn to_string(&self) -> (text: String)
        ensures
            text@ == self.message(),
    {
        let text = match self {
            SpawnAndWaitErrorKind::Spawn { .. } => String::from_str("failed to spawn"),
            SpawnAndWaitErrorKind::WaitForExitCode { .. } => String::from_str(
                "failed to wait for exit code",
            ),
        };
        assert(text@ =~= self.message());
        text
    }

    /// The operating system's error behind this one.
    pub fn source(&self) -> (cause: &std::io::Error)
        ensures
            *cause == self.cause(),
    {
        match self {
            SpawnAndWaitErrorKind::Spawn { source } => source,
            SpawnAndWaitErrorKind::WaitForExitCode { source } => source,
        }
    }
}

/// The text before the exit code in the message of an unsuccessful run.
pub open spec fn returned_exit_code() -> Seq<char> {
    "returned exit code "@
}

/// Why running a command to a successful end failed.
#[derive(Debug)]
pub enum RunErrorKind {
    /// Running the command or waiting for its end failed.
    SpawnAndWait(SpawnAndWaitErrorKind),
    /// The process ran and ended without success. A process that a signal
    /// ended has no code.
    UnsuccessfulExitCode { code: Option<i32> },
}

impl RunErrorKind {
    /// The message of each kind: that of the failure underneath, or
    /// `returned exit code ` and the debug form of the code.
    pub open spec fn message(self) -> Seq<char> {
        match self {
            RunErrorKind::SpawnAndWait(kind) => kind.message(),
            RunErrorKind::UnsuccessfulExitCode { code } => returned_exit_code() + code_debug(code),
        }
    }

    /// The operating system's error that the kind carries, if it carries one.
    pub open spec fn cause(self) -> Option<std::io::Error> {
        match self {
            RunErrorKind::SpawnAndWait(kind) => Some(kind.cause()),
            RunErrorKind::UnsuccessfulExitCode { .. } => None,
        }
    }

    /// The message of the error.
    pub fn to_string(&self) -> (text: String)
        ensures
            text@ == self.message(),
    {
        match self {
            RunErrorKind::SpawnAndWait(kind) => kind.to_string(),
            RunErrorKind::UnsuccessfulExitCode { code } => {
                let mut text = String::from_str("returned exit code ");
                assert(text@ =~= returned_exit_code());
                push_code_debug(&mut text, *code);
                text
            },
        }
    }

    /// The operating system's error behind this one, if there is one.
    pub fn source(&self) -> (cause: Option<&std::io::Error>)
        ensures
            match cause {
                Some(e) => self.cause() == Some(*e),
                None => self.cause() is None,
            },
    {
        match self {
            RunErrorKind::SpawnAndWait(kind) => Some(kind.source()),
            RunErrorKind::UnsuccessfulExitCode { .. } => None,
        }
    }
}

impl From<SpawnAndWaitErrorKind> for RunErrorKind {
    fn from(kind: SpawnAndWaitErrorKind) -> (error: RunErrorKind) {
        RunErrorKind::SpawnAndWait(kind)
    }
}

impl vstd::std_specs::convert::FromSpecImpl<SpawnAndWaitErrorKind> for RunErrorKind {
    open spec fn obeys_from_spec() -> bool {
        true
    }

    open spec fn from_spec(kind: SpawnAndWaitErrorKind) -> RunErrorKind {
        RunErrorKind::SpawnAndWait(kind)
    }
}

} // verus!
