//! Critical-event router: each of the four closed entry points fans out to a
//! raised-severity structured log, the status service and the (no-op) tray.
//!
//! Consecutive failures count up on each failed cycle and reset on success;
//! reaching the threshold fires exactly once and sets the escalation flag,
//! with no re-firing on later failures until a success resets it.

use std::sync::Arc;

use vstd::prelude::*;
use vstd::rwlock::{RwLock, RwLockPredicate};

use crate::foundation::core_types::error::TransportError;
use crate::foundation::core_types::sink::{
    CriticalEventSink, CycleOutcome, LimitReport, LogFields, LogLevel, Logger, RollbackReason,
    StatusSink, Version,
};
use crate::foundation::core_types::status::ActiveCondition;
use crate::text::{decimal, string_of};

use super::status::StatusService;
use super::tray::{NotificationMessage, TrayIndicator};

verus! {

/// The consecutive-failure state machine.
#[derive(Debug, Clone, Copy, PartialEq, Eq, Structural)]
pub struct EscalationState {
    /// Consecutive failures (reset by a success).
    pub consecutive: u32,
    /// Whether the escalation fired (kept until a success).
    pub escalated: bool,
}

/// `c + 1` saturated at `u32::MAX`.
pub open spec fn spec_saturating_inc(c: u32) -> u32 {
    if c == u32::MAX {
        u32::MAX
    } else {
        (c + 1) as u32
    }
}

/// One step of the machine on a cycle result (`failed`), with the threshold:
/// the next state and whether the escalation fires now.
pub open spec fn spec_escalation_step(s: EscalationState, failed: bool, threshold: u32) -> (
    EscalationState,
    bool,
) {
    if !failed {
        (EscalationState { consecutive: 0, escalated: false }, false)
    } else {
        let c = spec_saturating_inc(s.consecutive);
        let fire = c >= threshold && !s.escalated;
        (EscalationState { consecutive: c, escalated: s.escalated || fire }, fire)
    }
}

/// The initial state: no failure, not escalated.
pub open spec fn spec_escalation_initial() -> EscalationState {
    EscalationState { consecutive: 0, escalated: false }
}

impl EscalationState {
    /// The initial state.
    pub fn new() -> (s: Self)
        ensures
            s == spec_escalation_initial(),
    {
        EscalationState { consecutive: 0, escalated: false }
    }

    /// Advances on one cycle result; returns whether the escalation fires now.
    pub fn step(&mut self, failed: bool, threshold: u32) -> (fire: bool)
        ensures
            (*final(self), fire) == spec_escalation_step(*old(self), failed, threshold),
    {
        if !failed {
            self.consecutive = 0;
            self.escalated = false;
            false
        } else {
            if self.consecutive < u32::MAX {
                self.consecutive = self.consecutive + 1;
            }
            let fire = self.consecutive >= threshold && !self.escalated;
            if fire {
                self.escalated = true;
            }
            fire
        }
    }
}

/// The state after `n` consecutive failures from `s`.
pub open spec fn spec_after_failures(s: EscalationState, n: nat, threshold: u32) -> EscalationState
    decreases n,
{
    if n == 0 {
        s
    } else {
        spec_escalation_step(spec_after_failures(s, (n - 1) as nat, threshold), true, threshold).0
    }
}

/// How many times the escalation fires over `n` consecutive failures from `s`.
pub open spec fn spec_fires_over_failures(s: EscalationState, n: nat, threshold: u32) -> nat
    decreases n,
{
    if n == 0 {
        0
    } else {
        spec_fires_over_failures(s, (n - 1) as nat, threshold) + (if spec_escalation_step(
            spec_after_failures(s, (n - 1) as nat, threshold),
            true,
            threshold,
        ).1 {
            1nat
        } else {
            0nat
        })
    }
}

/// After `n` failures from the initial state, the count is `n`, the
/// escalation is set exactly when `n` reached the (at least one) threshold,
/// and it fired that many times: once or never.
pub proof fn lemma_failures_from_initial(n: nat, threshold: u32)
    requires
        n <= u32::MAX,
    ensures
        spec_after_failures(spec_escalation_initial(), n, threshold).consecutive == n,
        spec_after_failures(spec_escalation_initial(), n, threshold).escalated == (n >= 1 && n
            >= threshold),
        spec_fires_over_failures(spec_escalation_initial(), n, threshold) == (if n >= 1 && n
            >= threshold {
            1nat
        } else {
            0nat
        }),
    decreases n,
{
    if n > 0 {
        lemma_failures_from_initial((n - 1) as nat, threshold);
    }
}

/// Escalation fires at most once over any run of consecutive failures from
/// the initial state, and a success always resets the machine.
pub proof fn lemma_fires_at_most_once_and_success_resets(
    s: EscalationState,
    n: nat,
    threshold: u32,
)
    requires
        n <= u32::MAX,
    ensures
        spec_fires_over_failures(spec_escalation_initial(), n, threshold) <= 1,
        spec_escalation_step(s, false, threshold) == (spec_escalation_initial(), false),
{
    lemma_failures_from_initial(n, threshold);
}

/// Whether a machine state is reachable from the initial state under the
/// threshold: escalated exactly when at least one failure was counted and
/// the count reached the threshold.
pub open spec fn escalation_reachable(s: EscalationState, threshold: u32) -> bool {
    s.escalated == (s.consecutive >= 1 && s.consecutive >= threshold)
}

/// The lock predicate of the escalation machine: the state is reachable
/// under the notifier's threshold.
pub struct ReachableEscalation {
    /// The notifier's threshold.
    pub threshold: u32,
}

impl RwLockPredicate<EscalationState> for ReachableEscalation {
    open spec fn inv(self, v: EscalationState) -> bool {
        escalation_reachable(v, self.threshold)
    }
}

/// A step keeps the machine reachable.
proof fn lemma_step_keeps_reachable(s: EscalationState, failed: bool, threshold: u32)
    requires
        escalation_reachable(s, threshold),
    ensures
        escalation_reachable(spec_escalation_step(s, failed, threshold).0, threshold),
{
}

/// A log field from a literal key and a value.
fn field(key: &str, value: String) -> (f: (String, String))
    ensures
        f.0@ == key@,
        f.1@ == value@,
{
    (string_of(key), value)
}

/// The critical-event router (`CriticalEventSink`).
pub struct CriticalErrorNotifier {
    logger: Box<dyn Logger>,
    status: Arc<StatusService>,
    tray: Arc<TrayIndicator>,
    threshold: u32,
    state: RwLock<EscalationState, ReachableEscalation>,
}

impl CriticalErrorNotifier {
    #[verifier::type_invariant]
    spec fn lock_threshold_matches(&self) -> bool {
        self.state.pred().threshold == self.threshold
    }

    /// The consecutive-failure threshold.
    pub closed spec fn spec_threshold(&self) -> u32 {
        self.threshold
    }

    /// The logger's `logs_event` fact for this level and name (see `Logger`).
    pub closed spec fn logger_logged(&self, level: LogLevel, event: Seq<char>) -> bool {
        self.logger.logs_event(level, event)
    }

    /// The status service.
    pub closed spec fn spec_status(&self) -> Arc<StatusService> {
        self.status
    }

    /// The tray indicator.
    pub closed spec fn spec_tray(&self) -> Arc<TrayIndicator> {
        self.tray
    }

    /// A notifier over the sinks, with the consecutive-failure threshold
    /// (`notify_consecutive_failures`, at least 1); the machine starts with
    /// no failure counted.
    pub fn new(
        logger: Box<dyn Logger>,
        status: Arc<StatusService>,
        tray: Arc<TrayIndicator>,
        threshold: u32,
    ) -> (n: Self)
        ensures
            n.spec_status() == status,
            n.spec_tray() == tray,
            n.spec_threshold() == threshold,
    {
        let state = RwLock::new(EscalationState::new(), Ghost(ReachableEscalation { threshold }));
        CriticalErrorNotifier { logger, status, tray, threshold, state }
    }

    /// Tries a tray notification (a no-op).
    fn notify_tray(&self, title: &str, body: String) {
        self.tray.notify(NotificationMessage { title: string_of(title), body });
    }

    /// Advances the machine under the lock; whether the escalation fires now.
    /// The state under the lock is some reachable one, so a success never
    /// fires and a failure fires exactly when it brings the count to the
    /// threshold (to 1 with a threshold of 0) from below.
    fn advance(&self, failed: bool) -> (fire: bool)
        ensures
            exists|s: EscalationState|
                escalation_reachable(s, self.spec_threshold()) && fire == (#[trigger] spec_escalation_step(
                    s,
                    failed,
                    self.spec_threshold(),
                )).1,
            fire ==> failed,
    {
        proof {
            use_type_invariant(self);
        }
        let (mut state, handle) = self.state.acquire_write();
        let ghost before = state;
        let fire = state.step(failed, self.threshold);
        proof {
            lemma_step_keeps_reachable(before, failed, self.threshold);
        }
        handle.release_write(state);
        assert(fire == spec_escalation_step(before, failed, self.spec_threshold()).1);
        fire
    }
}

impl CriticalEventSink for CriticalErrorNotifier {
    /// Logs `critical.auth_failure` at error level, raises `AuthFailed` and
    /// tries the tray.
    fn report_auth_failure(&self, detail: TransportError)
        ensures
            self.logger_logged(LogLevel::Error, "critical.auth_failure"@),
    {
        let mut fields: Vec<(String, String)> = Vec::new();
        fields.push(field("detail", detail.detail.clone()));
        self.logger.event(LogLevel::Error, "critical.auth_failure", None, LogFields(fields));
        self.status.raise_condition(ActiveCondition::AuthFailed);
        self.notify_tray("인증 실패", detail.detail);
    }

    /// Steps the consecutive-failure machine under the lock: a success
    /// resets it and clears the escalation flag; a failure counts, and when
    /// it brings the count to the threshold the escalation fires: logged as
    /// `critical.consecutive_failures` at error level, flag set, tray tried.
    ///
    /// The contract says little: the machine's state sits behind the lock and
    /// is not visible to the contract, so it only states that for some
    /// reachable state the step's firing implies the log fact. It says
    /// nothing about this call against earlier ones (a body that never logs
    /// meets it by choosing a state that does not fire). The counting law
    /// itself is stated and proved on `EscalationState::step` and its lemmas.
    fn report_cycle_result(&self, outcome: CycleOutcome)
        ensures
            exists|s: EscalationState|
                escalation_reachable(s, self.spec_threshold()) && ((#[trigger] spec_escalation_step(
                    s,
                    outcome is Failure,
                    self.spec_threshold(),
                )).1 ==> self.logger_logged(LogLevel::Error, "critical.consecutive_failures"@)),
    {
        match outcome {
            CycleOutcome::Success => {
                self.advance(false);
                self.status.set_failure_escalation(false);
            },
            CycleOutcome::Failure(error) => {
                let fire = self.advance(true);
                if fire {
                    let mut fields: Vec<(String, String)> = Vec::new();
                    fields.push(field("threshold", decimal(self.threshold as u64)));
                    fields.push(field("detail", error.detail));
                    self.logger.event(
                        LogLevel::Error,
                        "critical.consecutive_failures",
                        None,
                        LogFields(fields),
                    );
                    self.status.set_failure_escalation(true);
                    self.notify_tray("연속 실패", string_of("임계 도달"));
                }
            },
        }
    }

    /// Logs `critical.preflight_exceeded` at warning level, raises
    /// `OverLimit` and tries the tray.
    fn report_preflight_exceeded(&self, report: LimitReport)
        ensures
            self.logger_logged(LogLevel::Warn, "critical.preflight_exceeded"@),
    {
        let mut fields: Vec<(String, String)> = Vec::new();
        fields.push(field("report", report.0.clone()));
        self.logger.event(LogLevel::Warn, "critical.preflight_exceeded", None, LogFields(fields));
        self.status.raise_condition(ActiveCondition::OverLimit);
        self.notify_tray("한도 초과", report.0);
    }

    /// Logs `critical.update_rollback` at error level, raises
    /// `UpdateRolledBack` and tries the tray.
    fn report_update_rollback(&self, from: Version, to: Version, reason: RollbackReason)
        ensures
            self.logger_logged(LogLevel::Error, "critical.update_rollback"@),
    {
        let mut fields: Vec<(String, String)> = Vec::new();
        fields.push(field("from", from.0));
        fields.push(field("to", to.0.clone()));
        fields.push(field("reason", reason.0));
        self.logger.event(LogLevel::Error, "critical.update_rollback", None, LogFields(fields));
        self.status.raise_condition(ActiveCondition::UpdateRolledBack);
        self.notify_tray("업데이트 롤백", to.0);
    }
}

} // verus!
