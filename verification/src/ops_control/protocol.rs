//! Control protocol messages: one request type and one response type.
//! Domain errors travel inside a response frame; only transport, framing
//! and version failures are transport errors.

use vstd::prelude::*;

use crate::foundation::core_types::primitives::Timestamp;
use crate::foundation::core_types::sink::UploadHistoryRecord;
use crate::foundation::core_types::status::{ConsentState, Health, StatusSnapshot};

verus! {

/// Protocol version; a request with another version is refused before dispatch.
pub const PROTO_VERSION: u16 = 1;

/// Shutdown mode carried by a stop request.
#[derive(Debug, Clone, Copy, PartialEq, Eq, Structural)]
pub enum StopMode {
    /// Finish the work in progress, then stop.
    Graceful,
    /// Stop at once.
    Immediate,
}

/// Consent sub-operation.
#[derive(Debug, Clone, Copy, PartialEq, Eq, Structural)]
pub enum ConsentOp {
    /// Read-only view.
    View,
    /// Grant standing consent.
    Grant,
    /// Withdraw consent.
    Withdraw,
    /// Acknowledge the risk notice.
    Acknowledge,
}

/// History filter on the wire (the two fields of `HistoryQuery`).
#[derive(Debug, Clone, Copy, PartialEq, Eq, Default)]
pub struct HistoryFilter {
    /// Only records with `timestamp >= since`.
    pub since: Option<Timestamp>,
    /// `Some(true)`: failures only; `Some(false)`: successes only.
    pub only_failures: Option<bool>,
}

/// Operation addressed to the daemon (install and uninstall bypass it).
#[derive(Debug, Clone, Copy, PartialEq, Eq)]
pub enum ControlOp {
    /// Status snapshot.
    Status,
    /// Operational health.
    Health,
    /// Pause watching.
    Pause,
    /// Resume watching.
    Resume,
    /// Request an immediate sync.
    SyncNow,
    /// Request a stop.
    Stop(StopMode),
    /// Upload history query.
    History(HistoryFilter),
    /// Consent control.
    Consent(ConsentOp),
    /// Configuration reload.
    Reload,
}

/// One request frame.
#[derive(Debug, Clone, Copy, PartialEq, Eq)]
pub struct ControlRequest {
    /// `PROTO_VERSION` of the sender.
    pub proto_version: u16,
    /// Operation.
    pub op: ControlOp,
}

/// Consent on the wire: the state and whether the notice was acknowledged.
#[derive(Debug, Clone, Copy, PartialEq, Eq, Structural)]
pub struct ConsentView {
    /// Consent state.
    pub consent: ConsentState,
    /// Notice acknowledged.
    pub acknowledged: bool,
}

/// Handler domain errors (carried inside a response).
#[derive(Debug, Clone, PartialEq, Eq)]
pub enum ControlError {
    /// Version mismatch: refused before dispatch.
    VersionMismatch {
        /// Server version.
        server: u16,
        /// Client version received.
        client: u16,
    },
    /// Consent operation refused.
    ConsentRejected(String),
    /// Reload failed (last good configuration kept).
    ReloadFailed(String),
    /// Run-state persistence failed.
    RunState(String),
    /// History unavailable.
    HistoryUnavailable(String),
}

/// Result of a request: a payload or a domain error.
#[derive(Debug, Clone, PartialEq, Eq)]
pub enum ControlResult {
    /// Status snapshot.
    Status(StatusSnapshot),
    /// Health verdict.
    Health(Health),
    /// History records.
    History(Vec<UploadHistoryRecord>),
    /// Consent view.
    Consent(ConsentView),
    /// Side effect done.
    Ack,
    /// Domain error.
    Error(ControlError),
}

/// One response frame.
#[derive(Debug, Clone, PartialEq, Eq)]
pub struct ControlResponse {
    /// Server `PROTO_VERSION`.
    pub proto_version: u16,
    /// Result.
    pub result: ControlResult,
}

} // verus!
