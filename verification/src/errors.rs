//! The typed failures a start can surface.

use vstd::prelude::*;

verus! {

/// Why a service failed to start. Every variant carries the full text shown
/// to the caller; the kind records which stage of the start gave up.
#[derive(Debug, Clone)]
pub enum StartError {
    /// The locator could not resolve a required executable or directory.
    BinaryNotFound(String),
    /// The operating system refused to create the process.
    SpawnFailure(String),
    /// The process exited within its grace window.
    ImmediateExit(String),
    /// Opening the service's log file failed even after retries.
    LogFileUnavailable(String),
    /// A generated configuration file could not be created or written.
    ConfigWriteFailure(String),
    /// The liveness probe itself failed, as opposed to the process having
    /// exited.
    ProcessCheckFailure(String),
}

impl StartError {
    pub open spec fn spec_message(self) -> Seq<char> {
        match self {
            StartError::BinaryNotFound(m) => m@,
            StartError::SpawnFailure(m) => m@,
            StartError::ImmediateExit(m) => m@,
            StartError::LogFileUnavailable(m) => m@,
            StartError::ConfigWriteFailure(m) => m@,
            StartError::ProcessCheckFailure(m) => m@,
        }
    }

    /// The text carried by the error.
    pub fn message(&self) -> (r: String)
        ensures
            r@ == self.spec_message(),
    {
        match self {
            StartError::BinaryNotFound(m) => m.clone(),
            StartError::SpawnFailure(m) => m.clone(),
            StartError::ImmediateExit(m) => m.clone(),
            StartError::LogFileUnavailable(m) => m.clone(),
            StartError::ConfigWriteFailure(m) => m.clone(),
            StartError::ProcessCheckFailure(m) => m.clone(),
        }
    }
}

} // verus!
