//! Orchestration core for a local companion-server setup: supervises the
//! lifecycle of one long-running backend process, builds the command lines
//! for the external tools it drives (a device bridge, a capture-format
//! converter, a packet analyzer), parses their textual output into structured
//! records, and classifies health-probe responses.
//!
//! All process spawning, networking and filesystem probing live outside this
//! crate; the functions here take plain values describing what the outside
//! world reported and return plain values describing what to do next.

use vstd::prelude::*;

pub mod capture;
pub mod devices;
pub mod discovery;
pub mod error;
pub mod health;
pub mod invoke;
pub mod paths;
pub mod pipeline;
pub mod supervisor;

verus! {

} // verus!
