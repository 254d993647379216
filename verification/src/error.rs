//! Error taxonomy of the orchestration layer.
//!
//! Every failure this layer can meet is representable as a returned value;
//! nothing here aborts the process. `AlreadyInDesiredState` situations
//! (start while running, stop while stopped) are informational successes and
//! therefore not listed here; see the supervisor's decision types.

use vstd::prelude::*;

verus! {

/// A typed failure of one orchestration operation.
#[derive(Debug, Clone)]
pub enum OrchError {
    /// The external executable was missing or could not be launched at all.
    ToolNotFound { message: String },
    /// The tool ran and exited nonzero; carries the captured stderr.
    ToolFailed { stderr: String, exit_code: i32 },
    /// Tool output could not be parsed into the expected structure.
    MalformedOutput,
    /// Backend discovery exhausted every candidate directory.
    BackendNotFound,
    /// The backend launcher was found but spawning it failed.
    SpawnFailed { message: String },
}

impl OrchError {
    /// A short human-readable account of the error, with the captured
    /// detail appended where one exists.
    pub fn describe(&self) -> (message: String)
        ensures
            (match *self {
                OrchError::ToolNotFound { message: m } => message@ == "tool not found: "@ + m@,
                OrchError::ToolFailed { stderr: s, .. } => message@ == "tool failed: "@ + s@,
                OrchError::MalformedOutput => message@ == "malformed tool output"@,
                OrchError::BackendNotFound => message@ == "backend launcher not found"@,
                OrchError::SpawnFailed { message: m } => message@ == "failed to start backend: "@
                    + m@,
            }),
    {
        match self {
            OrchError::ToolNotFound { message } => String::from_str("tool not found: ").concat(
                message.as_str(),
            ),
            OrchError::ToolFailed { stderr, .. } => String::from_str("tool failed: ").concat(
                stderr.as_str(),
            ),
            OrchError::MalformedOutput => String::from_str("malformed tool output"),
            OrchError::BackendNotFound => String::from_str("backend launcher not found"),
            OrchError::SpawnFailed { message } => String::from_str("failed to start backend: ")
                .concat(message.as_str()),
        }
    }
}

} // verus!
