//! What the operating system reports of a process that has ended.

use vstd::prelude::*;

verus! {

/// How a process ended.
#[derive(Clone, Copy, Debug, PartialEq, Eq, Structural)]
pub struct ExitStatus {
    /// Whether the operating system counts the end as a success.
    pub success: bool,
    /// The exit code, where there is one: a process that a signal ended has
    /// none.
    pub code: Option<i32>,
}

impl ExitStatus {
    /// A status with the given judgement and exit code.
    pub fn new(success: bool, code: Option<i32>) -> (status: ExitStatus)
        ensures
            status == (ExitStatus { success, code }),
    {
        ExitStatus { success, code }
    }

    /// Whether the process ended successfully.
    pub fn success(&self) -> (success: bool)
        ensures
            success == self.success,
    {
        self.success
    }

    /// The exit code, where the process exited by itself.
    pub fn code(&self) -> (code: Option<i32>)
        ensures
            code == self.code,
    {
        self.code
    }
}

/// What a process left behind when its output was captured.
#[derive(Debug)]
pub struct Output {
    /// How the process ended.
    pub status: ExitStatus,
    /// What it wrote to standard output.
    pub stdout: Vec<u8>,
    /// What it wrote to standard error.
    pub stderr: Vec<u8>,
}

} // verus!
