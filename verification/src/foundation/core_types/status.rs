//! Two-axis status vocabulary: operational lifecycle, active conditions,
//! liveness signals and the snapshot that aggregates them.

use vstd::prelude::*;

use super::primitives::{ByteCount, Timestamp};

verus! {

/// Operational lifecycle (axis 1): exactly one value at a time.
#[derive(Debug, Clone, Copy, PartialEq, Eq, Hash, Structural)]
pub enum OperationalState {
    /// Waiting (no cycle).
    Idle,
    /// A cycle is running.
    Syncing,
    /// The server is unreachable.
    Offline,
    /// Paused by the operator.
    Paused,
}

/// Active condition (element of axis 2); several may hold at once.
#[derive(Debug, Clone, Copy, PartialEq, Eq, PartialOrd, Ord, Hash, Structural)]
pub enum ActiveCondition {
    /// Authentication failed.
    AuthFailed,
    /// Upload blocked by missing or withdrawn consent.
    ConsentBlocked,
    /// Safety limits exceeded.
    OverLimit,
    /// Vault root missing or unmounted.
    VaultUnavailable,
    /// An automatic update was rolled back.
    UpdateRolledBack,
}

/// Startup liveness signal.
#[derive(Debug, Clone, Copy, PartialEq, Eq, Hash, Structural)]
pub enum LivenessSignal {
    /// First idle reached after startup.
    IdleReached,
    /// The token source can be resolved.
    CredentialReadable,
}

/// Consent state.
#[derive(Debug, Clone, Copy, PartialEq, Eq, Hash, Structural)]
pub enum ConsentState {
    /// Consent granted.
    Granted,
    /// Consent blocked or withdrawn.
    Blocked,
    /// Undecided or unknown.
    Unknown,
}

/// Current two-axis status plus auxiliary fields.
#[derive(Debug, Clone, PartialEq, Eq)]
pub struct StatusSnapshot {
    /// Operational lifecycle (axis 1).
    pub operational: OperationalState,
    /// Active conditions (axis 2), without duplicates.
    pub conditions: Vec<ActiveCondition>,
    /// Time of the last success, when there is one.
    pub last_success: Option<Timestamp>,
    /// Pending uncommitted change.
    pub dirty: bool,
    /// (transferred, total) of the running transfer, when there is one.
    pub resume: Option<(ByteCount, ByteCount)>,
    /// Consent state.
    pub consent: ConsentState,
    /// Whether the watcher is offline.
    pub offline: bool,
}

/// Reason of degraded health.
#[derive(Debug, Clone, PartialEq, Eq)]
pub struct HealthReason(pub String);

/// Operational health verdict.
#[derive(Debug, Clone, PartialEq, Eq)]
pub enum Health {
    /// Operationally healthy.
    Healthy,
    /// Unhealthy, with the reasons.
    Unhealthy {
        /// Reasons of degraded health.
        reasons: Vec<HealthReason>,
    },
}

/// Pure liveness verdict.
#[derive(Debug, Clone, PartialEq, Eq)]
pub enum Liveness {
    /// Startup done and both required signals observed.
    Alive,
    /// Not ready yet, with the signals still missing.
    NotReady {
        /// Required liveness signals not yet observed.
        missing: Vec<LivenessSignal>,
    },
}

} // verus!
