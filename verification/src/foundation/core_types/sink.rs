//! Push-only observation sink contracts and the record types they carry.

use vstd::prelude::*;

use super::error::{ClassifiedError, TransportError};
use super::primitives::{ByteCount, Timestamp};
use super::status::{ActiveCondition, Health, Liveness, LivenessSignal, OperationalState};

verus! {

/// Minimum log severity: `Trace < Debug < Info < Warn < Error`.
#[derive(Debug, Clone, Copy, PartialEq, Eq, PartialOrd, Ord, Hash, Structural)]
pub enum LogLevel {
    /// Most detailed tracing level.
    Trace,
    /// Debug level.
    Debug,
    /// Informational level (the default).
    Info,
    /// Warning level.
    Warn,
    /// Error level.
    Error,
}

/// Position of a level in the severity order.
pub open spec fn spec_level_rank(l: LogLevel) -> nat {
    match l {
        LogLevel::Trace => 0,
        LogLevel::Debug => 1,
        LogLevel::Info => 2,
        LogLevel::Warn => 3,
        LogLevel::Error => 4,
    }
}

impl LogLevel {
    /// Position of this level in the severity order (`Trace` is 0, `Error` is 4).
    pub fn rank(&self) -> (r: u8)
        ensures
            r == spec_level_rank(*self),
    {
        match self {
            LogLevel::Trace => 0,
            LogLevel::Debug => 1,
            LogLevel::Info => 2,
            LogLevel::Warn => 3,
            LogLevel::Error => 4,
        }
    }

    /// Whether this level is at least as severe as `other` (`self >= other`).
    pub fn at_least(&self, other: &LogLevel) -> (r: bool)
        ensures
            r == (spec_level_rank(*self) >= spec_level_rank(*other)),
    {
        self.rank() >= other.rank()
    }
}

/// Cycle identifier.
#[derive(Debug, Clone, Copy, PartialEq, Eq, Hash, Structural)]
pub struct CycleId(pub u64);

/// Structured log fields (ordered key/value pairs).
#[derive(Debug, Clone, PartialEq, Eq, Default)]
pub struct LogFields(pub Vec<(String, String)>);

/// Structured log record.
#[derive(Debug, Clone, PartialEq, Eq)]
pub struct LogRecord {
    /// Severity.
    pub level: LogLevel,
    /// Event identifier.
    pub event: String,
    /// Related cycle, when there is one.
    pub cycle_id: Option<CycleId>,
    /// Human-readable message.
    pub message: String,
    /// Structured fields.
    pub fields: LogFields,
}

/// One appended upload history record.
#[derive(Debug, Clone, PartialEq, Eq)]
pub struct UploadHistoryRecord {
    /// When the record was made.
    pub timestamp: Timestamp,
    /// Bytes transferred.
    pub bytes_transferred: ByteCount,
    /// Error detail of a failure; `None` for a success.
    pub error_detail: Option<String>,
}

/// Outcome of one cycle.
#[derive(Debug, Clone, PartialEq, Eq)]
pub enum CycleOutcome {
    /// The cycle succeeded.
    Success,
    /// The cycle failed with a classified error.
    Failure(ClassifiedError),
}

/// Preflight limit-exceeded report.
#[derive(Debug, Clone, PartialEq, Eq)]
pub struct LimitReport(pub String);

/// Version identifier.
#[derive(Debug, PartialEq, Eq)]
pub struct Version(pub String);

impl Clone for Version {
    fn clone(&self) -> (v: Self)
        ensures
            v == *self,
    {
        Version(self.0.clone())
    }
}

/// Rollback reason.
#[derive(Debug, PartialEq, Eq)]
pub struct RollbackReason(pub String);

impl Clone for RollbackReason {
    fn clone(&self) -> (r: Self)
        ensures
            r == *self,
    {
        RollbackReason(self.0.clone())
    }
}

/// Structured logging facade.
///
/// `logs_event(level, event)` is a timeless fact of the implementation that
/// an `event` call with that level and name ensures (true by default): a
/// caller establishes it only by making such a call, and it does not record
/// when or how often one was made.
pub trait Logger: Send + Sync {
    /// A fact that a returning `event` call with this level and name ensures.
    open spec fn logs_event(&self, level: LogLevel, event: Seq<char>) -> bool {
        true
    }

    /// Pushes one assembled record (best-effort, infallible).
    fn log(&self, record: LogRecord);

    /// Pushes a record built from a level, an event name, a cycle and fields.
    fn event(&self, level: LogLevel, event: &str, cycle_id: Option<CycleId>, fields: LogFields)
        ensures
            self.logs_event(level, event@),
    ;
}

/// In-memory status mutator (infallible).
pub trait StatusSink: Send + Sync {
    /// Updates the operational lifecycle (axis 1).
    fn set_operational(&self, state: OperationalState);

    /// Raises an active condition (axis 2).
    fn raise_condition(&self, cond: ActiveCondition);

    /// Clears an active condition (axis 2).
    fn clear_condition(&self, cond: ActiveCondition);

    /// Records the time of a successful sync.
    fn record_sync_success(&self, at: Timestamp);

    /// Updates the pending-change (dirty) flag.
    fn set_dirty(&self, dirty: bool);

    /// Updates the (transferred, total) progress of the running transfer.
    fn set_resume_progress(&self, transferred: ByteCount, total: ByteCount);

    /// Pushes a startup liveness signal.
    fn set_liveness(&self, signal: LivenessSignal);
}

/// Append-only upload history sink.
pub trait HistorySink: Send + Sync {
    /// Appends one record (best-effort, infallible).
    fn append(&self, record: UploadHistoryRecord);
}

/// Critical event reporting (best-effort, infallible).
///
/// `reported_rollback(from, to, reason)` is a timeless fact of the
/// implementation that a rollback report with those values ensures (true by
/// default): a caller establishes it only by making such a report, and it
/// does not record when or how often one was made.
pub trait CriticalEventSink: Send + Sync {
    /// A fact that a returning rollback report with these values ensures.
    open spec fn reported_rollback(&self, from: Version, to: Version, reason: RollbackReason) -> bool {
        true
    }

    /// Case 1: authentication failure.
    fn report_auth_failure(&self, detail: TransportError);

    /// Case 2: cycle result (consecutive failures counted, reset on success).
    fn report_cycle_result(&self, outcome: CycleOutcome);

    /// Case 3: preflight limit exceeded.
    fn report_preflight_exceeded(&self, report: LimitReport);

    /// Case 4: automatic update rolled back.
    fn report_update_rollback(&self, from: Version, to: Version, reason: RollbackReason)
        ensures
            self.reported_rollback(from, to, reason),
    ;
}

/// Configuration reload observer, notified after a successful swap.
pub trait ConfigReloadObserver: Send + Sync {
    /// The configuration was reloaded.
    fn on_config_reload(&self);
}

/// Read judgments: operational health and pure liveness, kept separate.
///
/// `judges_health` and `probes` are the implementation's relations of
/// possible results; by default every result is possible.
pub trait ReadJudgment: Send + Sync {
    /// `h` is a verdict that `health_check` can give.
    open spec fn judges_health(&self, h: Health) -> bool {
        true
    }

    /// `l` is a liveness that `update_probe` can give.
    open spec fn probes(&self, l: Liveness) -> bool {
        true
    }

    /// Operational health.
    fn health_check(&self) -> (h: Health)
        ensures
            self.judges_health(h),
    ;

    /// Pure liveness (startup, idle reached, credential readable).
    fn update_probe(&self) -> (l: Liveness)
        ensures
            self.probes(l),
    ;
}

} // verus!
