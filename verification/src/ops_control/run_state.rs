//! The authoritative run state: the mode (running or paused), which alone
//! survives a restart, and two volatile signals (sync now, stop). Pause and
//! resume are idempotent; only a real change is persisted and reflected in
//! the status (`Paused`, or `Idle` on resume).

use vstd::prelude::*;

use crate::foundation::core_types::status::OperationalState;
use crate::text::{push_str, string_of};

use super::protocol::StopMode;

verus! {

/// Run mode (the persisted part).
#[derive(Debug, Clone, Copy, PartialEq, Eq, Structural)]
pub enum RunMode {
    /// Cycles allowed.
    Running,
    /// Paused by the operator (watching stays up, cycles are held).
    Paused,
}

/// The run state held in memory.
#[derive(Debug, Clone, Copy, PartialEq, Eq, Structural)]
pub struct RunState {
    /// Running or paused (persisted).
    pub mode: RunMode,
    /// Sync-now signal (volatile; consumed by the daemon).
    pub sync_requested: bool,
    /// Stop signal (volatile; the last value wins).
    pub stop_requested: Option<StopMode>,
}

/// The persisted subset of the run state.
#[derive(Debug, Clone, Copy, PartialEq, Eq, Structural)]
pub struct PersistedRunState {
    /// Whether the mode is `Paused`.
    pub paused: bool,
}

/// Run-state errors.
#[derive(Debug, Clone, PartialEq, Eq)]
pub enum RunStateError {
    /// The atomic write (encode or rename) failed; the in-memory change stands.
    Persist,
    /// Underlying file I/O failed.
    Io(String),
}

impl RunStateError {
    /// The message of the error.
    pub fn message(&self) -> (s: String)
        ensures
            s@ == match *self {
                RunStateError::Persist => "run-state 원자 지속 실패"@,
                RunStateError::Io(d) => "run-state I/O 실패: "@ + d@,
            },
    {
        match self {
            RunStateError::Persist => string_of("run-state 원자 지속 실패"),
            RunStateError::Io(d) => {
                let mut s = string_of("run-state I/O 실패: ");
                push_str(&mut s, d.as_str());
                s
            },
        }
    }
}

/// The state restored at startup from what the state file gave: paused
/// only when it decoded to `paused == true`; absent, truncated or corrupt
/// files recover to running. Volatile signals start cleared.
pub open spec fn spec_recovered(loaded: Option<bool>) -> RunState {
    RunState {
        mode: if loaded == Some(true) {
            RunMode::Paused
        } else {
            RunMode::Running
        },
        sync_requested: false,
        stop_requested: None,
    }
}

/// The persisted form of a state: the mode only.
pub open spec fn spec_persisted(s: RunState) -> PersistedRunState {
    PersistedRunState { paused: s.mode == RunMode::Paused }
}

/// The mode set, signals kept; whether it changed.
pub open spec fn spec_set_mode(s: RunState, m: RunMode) -> (RunState, bool) {
    (RunState { mode: m, ..s }, s.mode != m)
}

/// The operational state reflected after a mode change (`Running` maps to `Idle`).
pub open spec fn spec_reflected(m: RunMode) -> OperationalState {
    match m {
        RunMode::Running => OperationalState::Idle,
        RunMode::Paused => OperationalState::Paused,
    }
}

impl RunState {
    /// The startup state (see `spec_recovered`).
    pub fn recovered(loaded: Option<bool>) -> (s: Self)
        ensures
            s == spec_recovered(loaded),
    {
        let mode = match loaded {
            Some(true) => RunMode::Paused,
            _ => RunMode::Running,
        };
        RunState { mode, sync_requested: false, stop_requested: None }
    }

    /// Pauses; whether the mode changed (a no-op when already paused).
    pub fn pause(&mut self) -> (changed: bool)
        ensures
            (*final(self), changed) == spec_set_mode(*old(self), RunMode::Paused),
    {
        if self.mode == RunMode::Paused {
            return false;
        }
        self.mode = RunMode::Paused;
        true
    }

    /// Resumes; whether the mode changed (a no-op when already running).
    pub fn resume(&mut self) -> (changed: bool)
        ensures
            (*final(self), changed) == spec_set_mode(*old(self), RunMode::Running),
    {
        if self.mode == RunMode::Running {
            return false;
        }
        self.mode = RunMode::Running;
        true
    }

    /// Requests an immediate sync (volatile).
    pub fn request_sync_now(&mut self)
        ensures
            *final(self) == (RunState { sync_requested: true, ..*old(self) }),
    {
        self.sync_requested = true;
    }

    /// Requests a stop (volatile; the last request wins).
    pub fn request_stop(&mut self, mode: StopMode)
        ensures
            *final(self) == (RunState { stop_requested: Some(mode), ..*old(self) }),
    {
        self.stop_requested = Some(mode);
    }

    /// The persisted form: the mode only.
    pub fn persisted(&self) -> (p: PersistedRunState)
        ensures
            p == spec_persisted(*self),
    {
        PersistedRunState { paused: self.mode == RunMode::Paused }
    }
}

/// The operational state reflected after a change to `m`.
pub fn reflected_operational(m: RunMode) -> (o: OperationalState)
    ensures
        o == spec_reflected(m),
{
    match m {
        RunMode::Running => OperationalState::Idle,
        RunMode::Paused => OperationalState::Paused,
    }
}

/// Pause and resume are idempotent, resume undoes pause, and a restart
/// restores the mode while clearing the volatile signals.
pub proof fn lemma_run_state_laws(s: RunState)
    ensures
        spec_set_mode(spec_set_mode(s, RunMode::Paused).0, RunMode::Paused) == (
            spec_set_mode(s, RunMode::Paused).0,
            false,
        ),
        spec_set_mode(spec_set_mode(s, RunMode::Running).0, RunMode::Running) == (
            spec_set_mode(s, RunMode::Running).0,
            false,
        ),
        spec_set_mode(spec_set_mode(s, RunMode::Paused).0, RunMode::Running).0.mode
            == RunMode::Running,
        spec_recovered(Some(spec_persisted(s).paused)).mode == s.mode,
        !spec_recovered(Some(spec_persisted(s).paused)).sync_requested,
        spec_recovered(Some(spec_persisted(s).paused)).stop_requested is None,
{
}

} // verus!
