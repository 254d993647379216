//! Validation of the packet analyzer's structured output.
//!
//! The analyzer emits its report as JSON on stdout. This layer checks
//! syntax only — output either is well-formed JSON or the job fails with
//! `MalformedOutput`; no semantic validation happens here.

use vstd::prelude::*;
use crate::error::OrchError;
use crate::invoke::ToolOutcome;

verus! {

/// Whether a character sequence is syntactically valid JSON, as the JSON
/// grammar defines it.
pub uninterp spec fn valid_json(text: Seq<char>) -> bool;

/// Relies on `serde_json::from_str::<serde_json::Value>`: it accepts a
/// string exactly when the string is well-formed JSON, and that depends on
/// the characters alone.
#[verifier::external_body]
fn json_syntax_ok(text: &str) -> (ok: bool)
    ensures
        ok == valid_json(text@),
{
    serde_json::from_str::<serde_json::Value>(text).is_ok()
}

/// Validates analyzer output: well-formed JSON is returned as-is, anything
/// else is `MalformedOutput`.
pub fn parse_capture_json(text: &str) -> (validated: Result<String, OrchError>)
    ensures
        valid_json(text@) ==> (validated matches Ok(t) && t@ == text@),
        !valid_json(text@) ==> (validated matches Err(e) && e is MalformedOutput),
{
    if json_syntax_ok(text) {
        Ok(text.to_owned())
    } else {
        Err(OrchError::MalformedOutput)
    }
}

/// Folds the analysis step's outcome into the job's final report: a
/// successful run must have produced well-formed JSON; a failed run maps
/// to the error taxonomy — `ToolFailed` where the tool ran and exited
/// nonzero, `ToolNotFound` where it never launched.
pub fn capture_report_of(analyzed: ToolOutcome) -> (report: Result<String, OrchError>)
    ensures
        (match analyzed {
            ToolOutcome::Success { stdout } => {
                &&& valid_json(stdout@) ==> (report matches Ok(t) && t@ == stdout@)
                &&& !valid_json(stdout@) ==> (report matches Err(e) && e is MalformedOutput)
            },
            ToolOutcome::Failure { stderr, exit_code } => (match exit_code {
                Some(code) => report matches Err(e) && e matches OrchError::ToolFailed {
                    stderr: s,
                    exit_code: c,
                } && s == stderr && c == code,
                None => report matches Err(e) && e matches OrchError::ToolNotFound { message }
                    && message == stderr,
            }),
        }),
{
    match analyzed {
        ToolOutcome::Success { stdout } => parse_capture_json(stdout.as_str()),
        ToolOutcome::Failure { stderr, exit_code } => match exit_code {
            Some(code) => Err(OrchError::ToolFailed { stderr, exit_code: code }),
            None => Err(OrchError::ToolNotFound { message: stderr }),
        },
    }
}

} // verus!
