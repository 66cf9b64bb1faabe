//! A process-free core for running child processes with readable failures.
//!
//! The crate holds everything about running a command that does not touch the
//! operating system: how the command line is rendered, which step of an
//! execution comes next, what is written to the log, and which error a failed
//! step turns into. Whoever drives it starts the process, waits for it, and
//! hands back what the operating system said.

pub mod builder;
pub mod command;
pub mod error;
pub mod laws;
pub mod lifecycle;
pub mod modes;
pub mod quoting;
pub mod status;
pub mod text;

pub use builder::EasyCommand;
pub use command::{CommandLine, CommandLineView};
pub use error::{EasyCommandInvocation, ExecuteError, RunErrorKind, SpawnAndWaitErrorKind};
pub use lifecycle::{Action, Completion, Event, Execution, LogLevel, LogRecord, Mode, Stage, Step};
pub use modes::Attempt;
pub use status::{ExitStatus, Output};
