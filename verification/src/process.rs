//! Programs that the caller runs, and what their end means.

use vstd::prelude::*;

verus! {

/// A program to run, with its arguments.
#[derive(Debug, Clone)]
pub struct Command {
    pub program: String,
    pub args: Vec<String>,
}

/// Why a program that was to run did not do its work.
#[derive(Debug, Clone, Copy, PartialEq, Eq, Structural)]
pub enum ProcessError {
    /// The program could not be started.
    SpawnFailure,
    /// The program ended with a failure, or was killed.
    AbnormalExit,
}

/// How a program that was to run ended.
#[derive(Debug, Clone, Copy, PartialEq, Eq, Structural)]
pub enum ProcessReport {
    /// It could not be started.
    SpawnFailed,
    /// It ran, and exited with this code; none if it was killed.
    Exited { code: Option<i32> },
}

/// What the end of a program means to the one who started it: an exit with
/// code zero is success, every other end an error.
pub open spec fn process_result(report: ProcessReport) -> Result<(), ProcessError> {
    match report {
        ProcessReport::SpawnFailed => Err(ProcessError::SpawnFailure),
        ProcessReport::Exited { code } => if code == Some(0i32) {
            Ok(())
        } else {
            Err(ProcessError::AbnormalExit)
        },
    }
}

/// Judges the end of a program.
pub fn process_outcome(report: ProcessReport) -> (outcome: Result<(), ProcessError>)
    ensures
        outcome == process_result(report),
{
    match report {
        ProcessReport::SpawnFailed => Err(ProcessError::SpawnFailure),
        ProcessReport::Exited { code } => match code {
            Some(0) => Ok(()),
            _ => Err(ProcessError::AbnormalExit),
        },
    }
}

} // verus!
