//! Backend discovery: find the companion server's launcher script.
//!
//! The caller probes the filesystem (the one thing this module cannot do)
//! and reports, for each candidate base directory in order, whether the
//! launcher file exists there. [`locate`] then picks the first candidate
//! with a launcher — first match wins, no scoring — or reports
//! `BackendNotFound` once the list is exhausted.

use vstd::prelude::*;
use crate::error::OrchError;
use crate::invoke::Platform;
use crate::invoke::ToolInvocation;

verus! {

/// One candidate base directory, together with what the filesystem probe
/// reported about the launcher file inside it.
#[derive(Debug, Clone)]
pub struct CandidateDir {
    pub path: String,
    pub has_launcher: bool,
}

/// A discovered backend installation: the launcher to invoke and the
/// directory it must be invoked from.
#[derive(Debug, Clone)]
pub struct DiscoveredBackendPath {
    pub launcher: String,
    pub run_dir: String,
}

impl DiscoveredBackendPath {
    /// A field-for-field copy; unlike the derived `Clone`, its contract
    /// says the copy equals the original.
    pub fn duplicate(&self) -> (copy: DiscoveredBackendPath)
        ensures
            copy == *self,
    {
        DiscoveredBackendPath { launcher: self.launcher.clone(), run_dir: self.run_dir.clone() }
    }
}

/// The platform-specific launcher filename the probe must look for.
pub fn launcher_file_name(platform: Platform) -> (name: String)
    ensures
        platform == Platform::Windows ==> name@ == "mvnw.cmd"@,
        platform != Platform::Windows ==> name@ == "mvnw"@,
{
    match platform {
        Platform::Windows => String::from_str("mvnw.cmd"),
        Platform::MacOs => String::from_str("mvnw"),
        Platform::Linux => String::from_str("mvnw"),
    }
}

/// The base directory of the first candidate, in list order, whose launcher
/// exists; `None` when no candidate has one.
pub open spec fn spec_locate(candidates: Seq<CandidateDir>) -> Option<Seq<char>>
    decreases candidates.len(),
{
    if candidates.len() == 0 {
        None
    } else if candidates[0].has_launcher {
        Some(candidates[0].path@)
    } else {
        spec_locate(candidates.skip(1))
    }
}

/// Picks the first candidate directory containing the launcher, preserving
/// list order; exhausting the list is `BackendNotFound`. The returned
/// launcher path is the winning directory joined with `launcher_name`.
pub fn locate(candidates: &Vec<CandidateDir>, launcher_name: &str) -> (found: Result<
    DiscoveredBackendPath,
    OrchError,
>)
    ensures
        (match found {
            Ok(d) => spec_locate(candidates@) == Some(d.run_dir@) && d.launcher@ == d.run_dir@
                + "/"@ + launcher_name@,
            Err(e) => spec_locate(candidates@) is None && e is BackendNotFound,
        }),
{
    let n = candidates.len();
    let mut i: usize = 0;
    proof {
        assert(candidates@.skip(0) =~= candidates@);
    }
    while i < n
        invariant
            i <= n,
            n == candidates@.len(),
            spec_locate(candidates@) == spec_locate(candidates@.skip(i as int)),
        decreases n - i,
    {
        if candidates[i].has_launcher {
            let dir = candidates[i].path.clone();
            let launcher = dir.clone().concat("/").concat(launcher_name);
            return Ok(DiscoveredBackendPath { launcher, run_dir: dir });
        }
        proof {
            assert(candidates@.skip(i as int).skip(1) =~= candidates@.skip(i as int + 1));
        }
        i = i + 1;
    }
    proof {
        assert(candidates@.skip(n as int) =~= Seq::<CandidateDir>::empty());
    }
    Err(OrchError::BackendNotFound)
}

/// Law: with candidates `[a, b]` where only `b` has the launcher, discovery
/// returns `b`'s directory; with neither, it finds nothing.
pub proof fn lemma_locate_second_of_two(a: CandidateDir, b: CandidateDir)
    requires
        !a.has_launcher,
    ensures
        b.has_launcher ==> spec_locate(seq![a, b]) == Some(b.path@),
        !b.has_launcher ==> spec_locate(seq![a, b]) is None,
{
    reveal_with_fuel(spec_locate, 3);
    let pair = seq![a, b];
    assert(pair[0] == a && pair[1] == b);
    assert(pair.skip(1) =~= seq![b]);
    assert(seq![b][0] == b);
    assert(seq![b].skip(1) =~= Seq::<CandidateDir>::empty());
    assert(spec_locate(pair) == spec_locate(seq![b]));
}

/// The detached, persistent invocation that starts the companion server:
/// the discovered launcher, run from its own directory. Unlike every other
/// invocation, the spawned process is meant to outlive the call.
pub fn launcher_start_invocation(backend: &DiscoveredBackendPath) -> (inv: ToolInvocation)
    ensures
        inv.program@ == backend.launcher@,
        inv.args@.len() == 1,
        inv.args@[0]@ == "spring-boot:run"@,
        (match inv.current_dir {
            Some(d) => d@ == backend.run_dir@,
            None => false,
        }),
        inv.timeout_ms is None,
{
    let mut args: Vec<String> = Vec::new();
    args.push(String::from_str("spring-boot:run"));
    ToolInvocation {
        program: backend.launcher.clone(),
        args,
        current_dir: Some(backend.run_dir.clone()),
        timeout_ms: None,
    }
}

} // verus!
