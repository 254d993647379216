//! Health-probe classification for the companion server.
//!
//! The probe itself is a bounded-timeout HTTP GET against the server's local
//! health endpoint and is performed by the caller; this module decides what a
//! probe result means. A `2xx` status is healthy; any other status, and any
//! transport failure or timeout (no status at all), is unhealthy.

use vstd::prelude::*;

verus! {

/// Whether an HTTP status code counts as a successful health response.
pub open spec fn spec_healthy_status(code: u16) -> bool {
    200 <= code && code < 300
}

/// Whether one probe attempt, reported as `Some(status)` for a completed
/// request and `None` for a connection failure or timeout, means "reachable".
pub open spec fn spec_probe_healthy(response: Option<u16>) -> bool {
    match response {
        Some(code) => spec_healthy_status(code),
        None => false,
    }
}

/// Classifies an HTTP status code: `2xx` is healthy, everything else is not.
pub fn healthy_status(code: u16) -> (healthy: bool)
    ensures
        healthy == spec_healthy_status(code),
{
    200 <= code && code < 300
}

/// Classifies one health-probe attempt. `None` stands for a request that
/// never produced a status (connection refused, timeout): unhealthy.
///
/// Reachability reported here and the supervisor's own phase are two
/// independent signals: the endpoint may answer although this process never
/// started the server, and may stay silent while a just-spawned server warms
/// up. Callers must not merge the two.
pub fn probe_verdict(response: Option<u16>) -> (healthy: bool)
    ensures
        healthy == spec_probe_healthy(response),
{
    match response {
        Some(code) => healthy_status(code),
        None => false,
    }
}

} // verus!
