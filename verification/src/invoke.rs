//! The external-tool invocation model.
//!
//! A [`ToolInvocation`] is an immutable description of one external command:
//! executable name, ordered arguments, optional working directory, optional
//! timeout. The caller runs it to completion, capturing both streams and the
//! exit status, and feeds what it saw back through [`outcome_of_run`] or
//! [`outcome_of_launch_failure`]; the resulting [`ToolOutcome`] is the only
//! shape in which tool results travel through this crate.
//!
//! The builders here are the per-tool and per-platform command tables: each
//! pins down the exact program and argument list for one operation, so no
//! caller assembles command lines ad hoc.

use vstd::prelude::*;

verus! {

/// The platform family an invocation is built for. Resolved once by the
/// caller at startup, then passed to the per-platform builders.
#[derive(Debug, Clone, Copy, PartialEq, Eq, Structural)]
pub enum Platform {
    Windows,
    MacOs,
    Linux,
}

/// One external command, immutable once constructed.
#[derive(Debug, Clone)]
pub struct ToolInvocation {
    /// Executable name or path.
    pub program: String,
    /// Ordered argument list.
    pub args: Vec<String>,
    /// Directory to run in, if it matters to the tool.
    pub current_dir: Option<String>,
    /// Upper bound on the run, in milliseconds; `None` for user-initiated
    /// long runs that carry no default bound.
    pub timeout_ms: Option<u64>,
}

/// The result of running one invocation to completion: exactly one of
/// success (with captured stdout) or failure (with captured stderr and the
/// exit code, where the process ran at all).
#[derive(Debug, Clone)]
pub enum ToolOutcome {
    Success { stdout: String },
    Failure { stderr: String, exit_code: Option<i32> },
}

impl ToolOutcome {
    /// Whether this outcome is the success case.
    pub open spec fn spec_is_success(&self) -> bool {
        self is Success
    }

    pub fn is_success(&self) -> (success: bool)
        ensures
            success == self.spec_is_success(),
    {
        match self {
            ToolOutcome::Success { .. } => true,
            ToolOutcome::Failure { .. } => false,
        }
    }

    /// The outcome as callers of the plain bridge commands see it:
    /// captured stdout on success, captured stderr on failure.
    pub fn into_result(self) -> (r: Result<String, String>)
        ensures
            (match self {
                ToolOutcome::Success { stdout } => r matches Ok(out) && out == stdout,
                ToolOutcome::Failure { stderr, .. } => r matches Err(err) && err == stderr,
            }),
    {
        match self {
            ToolOutcome::Success { stdout } => Ok(stdout),
            ToolOutcome::Failure { stderr, .. } => Err(stderr),
        }
    }
}

/// Classifies a completed run: exit code zero is success and the outcome
/// carries stdout; any other code is failure and the outcome carries stderr
/// together with that code.
pub fn outcome_of_run(exit_code: i32, stdout: String, stderr: String) -> (outcome: ToolOutcome)
    ensures
        exit_code == 0 ==> outcome == (ToolOutcome::Success { stdout }),
        exit_code != 0 ==> outcome == (ToolOutcome::Failure {
            stderr,
            exit_code: Some(exit_code),
        }),
{
    if exit_code == 0 {
        ToolOutcome::Success { stdout }
    } else {
        ToolOutcome::Failure { stderr, exit_code: Some(exit_code) }
    }
}

/// Classifies a run that never began: the executable was missing or could
/// not be spawned. The absent exit code is what distinguishes "could not be
/// launched" from "ran and failed"; callers treat both as failure.
pub fn outcome_of_launch_failure(message: String) -> (outcome: ToolOutcome)
    ensures
        outcome == (ToolOutcome::Failure { stderr: message, exit_code: None }),
{
    ToolOutcome::Failure { stderr: message, exit_code: None }
}

/// The device-bridge listing command: `adb devices`.
pub fn adb_devices_invocation() -> (inv: ToolInvocation)
    ensures
        inv.program@ == "adb"@,
        inv.args@.len() == 1,
        inv.args@[0]@ == "devices"@,
        inv.current_dir is None,
        inv.timeout_ms is None,
{
    let mut args: Vec<String> = Vec::new();
    args.push(String::from_str("devices"));
    ToolInvocation { program: String::from_str("adb"), args, current_dir: None, timeout_ms: None }
}

/// A general device-bridge command with caller-chosen arguments.
pub fn adb_invocation(args: Vec<String>) -> (inv: ToolInvocation)
    ensures
        inv.program@ == "adb"@,
        inv.args@ == args@,
        inv.current_dir is None,
        inv.timeout_ms is None,
{
    ToolInvocation { program: String::from_str("adb"), args, current_dir: None, timeout_ms: None }
}

/// The per-platform command that reveals a file in the system file manager.
pub fn open_location_invocation(platform: Platform, path: String) -> (inv: ToolInvocation)
    ensures
        platform == Platform::Windows ==> inv.program@ == "explorer"@ && inv.args@.len() == 2
            && inv.args@[0]@ == "/select,"@ && inv.args@[1]@ == path@,
        platform == Platform::MacOs ==> inv.program@ == "open"@ && inv.args@.len() == 2
            && inv.args@[0]@ == "-R"@ && inv.args@[1]@ == path@,
        platform == Platform::Linux ==> inv.program@ == "xdg-open"@ && inv.args@.len() == 1
            && inv.args@[0]@ == path@,
        inv.current_dir is None,
        inv.timeout_ms is None,
{
    let mut args: Vec<String> = Vec::new();
    let program: String;
    match platform {
        Platform::Windows => {
            program = String::from_str("explorer");
            args.push(String::from_str("/select,"));
            args.push(path);
        },
        Platform::MacOs => {
            program = String::from_str("open");
            args.push(String::from_str("-R"));
            args.push(path);
        },
        Platform::Linux => {
            program = String::from_str("xdg-open");
            args.push(path);
        },
    }
    ToolInvocation { program, args, current_dir: None, timeout_ms: None }
}

/// The per-platform command that opens a terminal running `command`.
pub fn terminal_invocation(platform: Platform, command: String) -> (inv: ToolInvocation)
    ensures
        platform == Platform::Linux ==> inv.program@ == "x-terminal-emulator"@ && inv.args@.len()
            == 2 && inv.args@[0]@ == "-e"@ && inv.args@[1]@ == command@,
        platform == Platform::MacOs ==> inv.program@ == "open"@ && inv.args@.len() == 3
            && inv.args@[0]@ == "-a"@ && inv.args@[1]@ == "Terminal"@ && inv.args@[2]@ == command@,
        platform == Platform::Windows ==> inv.program@ == "cmd"@ && inv.args@.len() == 5
            && inv.args@[0]@ == "/c"@ && inv.args@[1]@ == "start"@ && inv.args@[2]@ == "cmd"@
            && inv.args@[3]@ == "/k"@ && inv.args@[4]@ == command@,
        inv.current_dir is None,
        inv.timeout_ms is None,
{
    let mut args: Vec<String> = Vec::new();
    let program: String;
    match platform {
        Platform::Linux => {
            program = String::from_str("x-terminal-emulator");
            args.push(String::from_str("-e"));
            args.push(command);
        },
        Platform::MacOs => {
            program = String::from_str("open");
            args.push(String::from_str("-a"));
            args.push(String::from_str("Terminal"));
            args.push(command);
        },
        Platform::Windows => {
            program = String::from_str("cmd");
            args.push(String::from_str("/c"));
            args.push(String::from_str("start"));
            args.push(String::from_str("cmd"));
            args.push(String::from_str("/k"));
            args.push(command);
        },
    }
    ToolInvocation { program, args, current_dir: None, timeout_ms: None }
}

} // verus!
