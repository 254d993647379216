//! The backend supervisor: a three-phase state machine (`Stopped`,
//! `Starting`, `Running`) owning at most one handle to the companion-server
//! process.
//!
//! The supervisor decides; the caller acts. `start_request` answers with
//! the one OS action the caller must perform — run discovery, or spawn the
//! launcher detached — and moves to `Starting` until the caller reports
//! back through `on_discovery` and `on_spawn_result`. `stop_request`
//! resolves synchronously: no `Stopping` phase is ever observable, even
//! though the underlying kill may be asynchronous at the OS level. The
//! caller must hold one exclusion lock around each whole start or stop
//! exchange — only one may be in flight at a time — so the held handle and
//! the real process never diverge for longer than one exchange; health
//! probes take no part in that lock (see the health module).

use vstd::prelude::*;
use crate::discovery::DiscoveredBackendPath;
use crate::error::OrchError;

verus! {

/// The supervisor's phase. `Starting` lasts from a start decision until
/// the caller's report resolves it; between complete exchanges only
/// `Stopped` and `Running` occur.
#[derive(Debug, Clone, Copy, PartialEq, Eq, Structural)]
pub enum BackendPhase {
    Stopped,
    Starting,
    Running,
}

/// What a start request asks of the caller.
#[derive(Debug, Clone)]
pub enum StartDecision {
    /// Idempotent no-op: the backend is already running. No process is
    /// spawned and no report is owed.
    AlreadyRunning,
    /// No launcher path is cached yet: probe the filesystem, then report
    /// through `on_discovery` and continue with the path it hands back.
    Discover,
    /// Spawn this launcher detached, then report through
    /// `on_spawn_result`.
    Spawn(DiscoveredBackendPath),
}

/// What a stop request asks of the caller.
#[derive(Debug, Clone)]
pub enum StopDecision {
    /// Idempotent no-op: nothing is running, perform no OS call.
    NotRunning,
    /// Send a termination signal to this handle, best-effort: the
    /// supervisor has already discarded it, whether or not delivery works.
    Kill(u64),
}

/// Owner of the single companion-server handle.
pub struct Supervisor {
    phase: BackendPhase,
    handle: Option<u64>,
    cached: Option<DiscoveredBackendPath>,
}

impl Supervisor {
    /// The supervisor's phase.
    pub closed spec fn spec_phase(&self) -> BackendPhase {
        self.phase
    }

    /// The held process handle, if any.
    pub closed spec fn spec_handle(&self) -> Option<u64> {
        self.handle
    }

    /// The launcher path cached by the last successful discovery.
    pub closed spec fn spec_cached(&self) -> Option<DiscoveredBackendPath> {
        self.cached
    }

    /// Internal consistency: a handle is held exactly while `Running`.
    pub closed spec fn wf(&self) -> bool {
        self.phase == BackendPhase::Running <==> self.handle is Some
    }

    /// The decision a start request takes, as a function of the state.
    pub closed spec fn spec_start_decision(&self) -> StartDecision {
        if self.phase == BackendPhase::Running {
            StartDecision::AlreadyRunning
        } else {
            match self.cached {
                Some(d) => StartDecision::Spawn(d),
                None => StartDecision::Discover,
            }
        }
    }

    /// The decision a stop request takes, as a function of the state.
    pub closed spec fn spec_stop_decision(&self) -> StopDecision {
        match self.handle {
            Some(h) => StopDecision::Kill(h),
            None => StopDecision::NotRunning,
        }
    }

    /// A fresh supervisor: stopped, holding nothing, no cached discovery.
    pub fn new() -> (s: Supervisor)
        ensures
            s.wf(),
            s.spec_phase() == BackendPhase::Stopped,
            s.spec_handle() is None,
            s.spec_cached() is None,
    {
        Supervisor { phase: BackendPhase::Stopped, handle: None, cached: None }
    }

    /// The supervisor's phase, for callers and displays.
    pub fn phase(&self) -> (p: BackendPhase)
        ensures
            p == self.spec_phase(),
    {
        self.phase
    }

    /// Begins a start exchange; the exclusion lock rules out a call while
    /// another exchange is in flight. Already running is an informational
    /// success, asks for nothing, and changes nothing. Otherwise the
    /// supervisor enters `Starting` and sends the caller to discovery or,
    /// with a cached path, straight to the spawn.
    pub fn start_request(&mut self) -> (decision: StartDecision)
        requires
            old(self).wf(),
            old(self).spec_phase() != BackendPhase::Starting,
        ensures
            final(self).wf(),
            decision == old(self).spec_start_decision(),
            final(self).spec_handle() == old(self).spec_handle(),
            final(self).spec_cached() == old(self).spec_cached(),
            old(self).spec_phase() == BackendPhase::Running ==> decision
                == StartDecision::AlreadyRunning && *final(self) == *old(self),
            old(self).spec_phase() == BackendPhase::Stopped ==> final(self).spec_phase()
                == BackendPhase::Starting,
            old(self).spec_phase() == BackendPhase::Stopped && old(self).spec_cached() is None
                ==> decision == StartDecision::Discover,
            old(self).spec_phase() == BackendPhase::Stopped ==> (old(self).spec_cached() matches Some(
                d,
            ) ==> decision == StartDecision::Spawn(d)),
    {
        match self.phase {
            BackendPhase::Running => StartDecision::AlreadyRunning,
            _ => {
                self.phase = BackendPhase::Starting;
                match &self.cached {
                    Some(d) => StartDecision::Spawn(d.duplicate()),
                    None => StartDecision::Discover,
                }
            },
        }
    }

    /// Reports what discovery found, during a start exchange. A hit is
    /// cached and handed back for the spawn, the exchange stays open; a
    /// miss ends the exchange — back to `Stopped` with `BackendNotFound`,
    /// and the caller may retry after fixing the filesystem.
    pub fn on_discovery(&mut self, found: Option<DiscoveredBackendPath>) -> (next: Result<
        DiscoveredBackendPath,
        OrchError,
    >)
        requires
            old(self).wf(),
            old(self).spec_phase() == BackendPhase::Starting,
        ensures
            final(self).wf(),
            final(self).spec_handle() is None,
            (match found {
                Some(d) => final(self).spec_phase() == BackendPhase::Starting
                    && final(self).spec_cached() == Some(d) && (next matches Ok(n) && n == d),
                None => final(self).spec_phase() == BackendPhase::Stopped
                    && final(self).spec_cached() == old(self).spec_cached() && (
                next matches Err(e) && e is BackendNotFound),
            }),
    {
        match found {
            Some(d) => {
                self.cached = Some(d.duplicate());
                Ok(d)
            },
            None => {
                self.phase = BackendPhase::Stopped;
                Err(OrchError::BackendNotFound)
            },
        }
    }

    /// Reports the spawn attempt, ending the start exchange. Success
    /// stores the handle and moves to `Running`; failure falls back to
    /// `Stopped` and surfaces `SpawnFailed` with the underlying OS error.
    pub fn on_spawn_result(&mut self, spawn: Result<u64, String>) -> (started: Result<
        (),
        OrchError,
    >)
        requires
            old(self).wf(),
            old(self).spec_phase() == BackendPhase::Starting,
        ensures
            final(self).wf(),
            final(self).spec_cached() == old(self).spec_cached(),
            (match spawn {
                Ok(pid) => final(self).spec_phase() == BackendPhase::Running
                    && final(self).spec_handle() == Some(pid) && started is Ok,
                Err(m) => final(self).spec_phase() == BackendPhase::Stopped
                    && final(self).spec_handle() is None && (started matches Err(e)
                    && e matches OrchError::SpawnFailed { message } && message == m),
            }),
    {
        match spawn {
            Ok(pid) => {
                self.phase = BackendPhase::Running;
                self.handle = Some(pid);
                Ok(())
            },
            Err(message) => {
                self.phase = BackendPhase::Stopped;
                Err(OrchError::SpawnFailed { message })
            },
        }
    }

    /// Stops the backend; the exclusion lock rules out a call while a
    /// start exchange is in flight. On a stopped supervisor this is the
    /// informational "not running" no-op and changes nothing; on a running
    /// one the handle is discarded unconditionally — even if the caller's
    /// signal later fails to deliver, this layer no longer controls that
    /// process — and the caller is asked to send the kill.
    pub fn stop_request(&mut self) -> (decision: StopDecision)
        requires
            old(self).wf(),
            old(self).spec_phase() != BackendPhase::Starting,
        ensures
            final(self).wf(),
            final(self).spec_phase() == BackendPhase::Stopped,
            final(self).spec_handle() is None,
            final(self).spec_cached() == old(self).spec_cached(),
            decision == old(self).spec_stop_decision(),
            old(self).spec_phase() == BackendPhase::Stopped ==> decision
                == StopDecision::NotRunning && *final(self) == *old(self),
            old(self).spec_phase() == BackendPhase::Running ==> decision == StopDecision::Kill(
                old(self).spec_handle()->Some_0,
            ),
    {
        let decision = match self.handle {
            Some(h) => StopDecision::Kill(h),
            None => StopDecision::NotRunning,
        };
        self.phase = BackendPhase::Stopped;
        self.handle = None;
        decision
    }
}

/// Law: a second `start` without an intervening `stop` spawns nothing.
/// Once the supervisor is `Running` — as it is exactly when one spawn was
/// reported successful — a start request decides `AlreadyRunning`, never
/// `Discover` or `Spawn`.
pub proof fn lemma_second_start_is_noop(s: Supervisor)
    requires
        s.wf(),
        s.spec_phase() == BackendPhase::Running,
    ensures
        s.spec_start_decision() == StartDecision::AlreadyRunning,
{
}

/// Law: `stop` on a stopped supervisor performs no OS call — the decision
/// is the informational `NotRunning`, never a `Kill`.
pub proof fn lemma_stop_when_stopped_is_noop(s: Supervisor)
    requires
        s.wf(),
        s.spec_phase() == BackendPhase::Stopped,
    ensures
        s.spec_stop_decision() == StopDecision::NotRunning,
{
}

} // verus!
