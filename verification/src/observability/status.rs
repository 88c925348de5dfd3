//! The single aggregation point of the two-axis status, and the two verdicts
//! read from it: `health_check` (operational) and `update_probe` (pure
//! liveness, isolated from both axes).
//!
//! `StatusState` holds the state as plain values with exact contracts;
//! `StatusService` keeps one behind a lock and implements the sink and
//! judgment traits over it.

use vstd::prelude::*;
use vstd::rwlock::{RwLock, RwLockPredicate};

use crate::foundation::core_types::primitives::{ByteCount, Timestamp};
use crate::foundation::core_types::sink::{ReadJudgment, StatusSink};
use crate::foundation::core_types::status::{
    ActiveCondition, ConsentState, Health, HealthReason, Liveness, LivenessSignal,
    OperationalState, StatusSnapshot,
};
use crate::text::string_of;

verus! {

/// The set of active conditions, one flag per condition.
#[derive(Debug, Clone, Copy, PartialEq, Eq, Structural)]
pub struct ConditionSet {
    /// `AuthFailed` is active.
    pub auth_failed: bool,
    /// `ConsentBlocked` is active.
    pub consent_blocked: bool,
    /// `OverLimit` is active.
    pub over_limit: bool,
    /// `VaultUnavailable` is active.
    pub vault_unavailable: bool,
    /// `UpdateRolledBack` is active.
    pub update_rolled_back: bool,
}

/// Whether the set holds the condition.
pub open spec fn set_has(s: ConditionSet, c: ActiveCondition) -> bool {
    match c {
        ActiveCondition::AuthFailed => s.auth_failed,
        ActiveCondition::ConsentBlocked => s.consent_blocked,
        ActiveCondition::OverLimit => s.over_limit,
        ActiveCondition::VaultUnavailable => s.vault_unavailable,
        ActiveCondition::UpdateRolledBack => s.update_rolled_back,
    }
}

/// The set with the flag of `c` set to `on`.
pub open spec fn set_with(s: ConditionSet, c: ActiveCondition, on: bool) -> ConditionSet {
    match c {
        ActiveCondition::AuthFailed => ConditionSet { auth_failed: on, ..s },
        ActiveCondition::ConsentBlocked => ConditionSet { consent_blocked: on, ..s },
        ActiveCondition::OverLimit => ConditionSet { over_limit: on, ..s },
        ActiveCondition::VaultUnavailable => ConditionSet { vault_unavailable: on, ..s },
        ActiveCondition::UpdateRolledBack => ConditionSet { update_rolled_back: on, ..s },
    }
}

/// `seq![x]` when `b`, else empty.
pub open spec fn seq_if<A>(b: bool, x: A) -> Seq<A> {
    if b {
        seq![x]
    } else {
        Seq::empty()
    }
}

/// The active conditions in their declaration (and `Ord`) order, each once.
pub open spec fn spec_condition_list(s: ConditionSet) -> Seq<ActiveCondition> {
    seq_if(s.auth_failed, ActiveCondition::AuthFailed) + seq_if(
        s.consent_blocked,
        ActiveCondition::ConsentBlocked,
    ) + seq_if(s.over_limit, ActiveCondition::OverLimit) + seq_if(
        s.vault_unavailable,
        ActiveCondition::VaultUnavailable,
    ) + seq_if(s.update_rolled_back, ActiveCondition::UpdateRolledBack)
}

impl ConditionSet {
    /// The empty set.
    pub fn empty() -> (s: Self)
        ensures
            s == spec_initial_status().conditions,
            forall|c: ActiveCondition| !set_has(s, c),
    {
        ConditionSet {
            auth_failed: false,
            consent_blocked: false,
            over_limit: false,
            vault_unavailable: false,
            update_rolled_back: false,
        }
    }

    /// Whether the condition is active.
    pub fn contains(&self, c: ActiveCondition) -> (r: bool)
        ensures
            r == set_has(*self, c),
    {
        match c {
            ActiveCondition::AuthFailed => self.auth_failed,
            ActiveCondition::ConsentBlocked => self.consent_blocked,
            ActiveCondition::OverLimit => self.over_limit,
            ActiveCondition::VaultUnavailable => self.vault_unavailable,
            ActiveCondition::UpdateRolledBack => self.update_rolled_back,
        }
    }

    /// Sets or clears one condition.
    pub fn set(&mut self, c: ActiveCondition, on: bool)
        ensures
            *final(self) == set_with(*old(self), c, on),
    {
        match c {
            ActiveCondition::AuthFailed => self.auth_failed = on,
            ActiveCondition::ConsentBlocked => self.consent_blocked = on,
            ActiveCondition::OverLimit => self.over_limit = on,
            ActiveCondition::VaultUnavailable => self.vault_unavailable = on,
            ActiveCondition::UpdateRolledBack => self.update_rolled_back = on,
        }
    }

    /// The active conditions in ascending order, without duplicates.
    pub fn to_vec(&self) -> (v: Vec<ActiveCondition>)
        ensures
            v@ == spec_condition_list(*self),
    {
        let mut v: Vec<ActiveCondition> = Vec::new();
        if self.auth_failed {
            v.push(ActiveCondition::AuthFailed);
        }
        if self.consent_blocked {
            v.push(ActiveCondition::ConsentBlocked);
        }
        if self.over_limit {
            v.push(ActiveCondition::OverLimit);
        }
        if self.vault_unavailable {
            v.push(ActiveCondition::VaultUnavailable);
        }
        if self.update_rolled_back {
            v.push(ActiveCondition::UpdateRolledBack);
        }
        assert(v@ =~= spec_condition_list(*self));
        v
    }
}

/// The two-axis status, its auxiliary fields and the escalation flag.
#[derive(Debug, Clone, Copy, PartialEq, Eq)]
pub struct StatusState {
    /// Axis 1: operational lifecycle.
    pub operational: OperationalState,
    /// Axis 2: active conditions.
    pub conditions: ConditionSet,
    /// Time of the last success.
    pub last_success: Option<Timestamp>,
    /// Pending uncommitted change.
    pub dirty: bool,
    /// (transferred, total) of the running transfer.
    pub resume: Option<(ByteCount, ByteCount)>,
    /// `IdleReached` was observed (monotone).
    pub idle_reached: bool,
    /// `CredentialReadable` was observed (monotone).
    pub credential_readable: bool,
    /// Consecutive-failure escalation flag.
    pub escalation: bool,
}

/// The text of the health reason of a health-critical condition.
pub open spec fn condition_reason(c: ActiveCondition) -> Seq<char> {
    match c {
        ActiveCondition::AuthFailed => "condition:AuthFailed"@,
        ActiveCondition::ConsentBlocked => "condition:ConsentBlocked"@,
        ActiveCondition::OverLimit => "condition:OverLimit"@,
        ActiveCondition::VaultUnavailable => "condition:VaultUnavailable"@,
        ActiveCondition::UpdateRolledBack => "condition:UpdateRolledBack"@,
    }
}

/// The health-critical conditions: `AuthFailed`, `OverLimit`, `UpdateRolledBack`.
pub open spec fn is_health_critical(c: ActiveCondition) -> bool {
    c == ActiveCondition::AuthFailed || c == ActiveCondition::OverLimit || c
        == ActiveCondition::UpdateRolledBack
}

/// The reasons of degraded health, in order: each active health-critical
/// condition (`AuthFailed`, `OverLimit`, `UpdateRolledBack`), then the
/// escalation flag.
pub open spec fn spec_health_reasons(s: StatusState) -> Seq<Seq<char>> {
    seq_if(s.conditions.auth_failed, condition_reason(ActiveCondition::AuthFailed)) + seq_if(
        s.conditions.over_limit,
        condition_reason(ActiveCondition::OverLimit),
    ) + seq_if(s.conditions.update_rolled_back, condition_reason(ActiveCondition::UpdateRolledBack))
        + seq_if(s.escalation, "consecutive_failure_escalation"@)
}

/// The texts of a list of health reasons.
pub open spec fn reason_texts(rs: Seq<HealthReason>) -> Seq<Seq<char>> {
    rs.map_values(|r: HealthReason| r.0@)
}

/// `health_check`: healthy exactly when there is no reason.
pub open spec fn health_matches(h: Health, s: StatusState) -> bool {
    match h {
        Health::Healthy => spec_health_reasons(s).len() == 0,
        Health::Unhealthy { reasons } => spec_health_reasons(s).len() > 0 && reason_texts(reasons@)
            == spec_health_reasons(s),
    }
}

/// The liveness signals not yet observed, in order.
pub open spec fn spec_missing(s: StatusState) -> Seq<LivenessSignal> {
    seq_if(!s.idle_reached, LivenessSignal::IdleReached) + seq_if(
        !s.credential_readable,
        LivenessSignal::CredentialReadable,
    )
}

/// `update_probe`: alive exactly when nothing is missing.
pub open spec fn liveness_matches(l: Liveness, s: StatusState) -> bool {
    match l {
        Liveness::Alive => spec_missing(s).len() == 0,
        Liveness::NotReady { missing } => spec_missing(s).len() > 0 && missing@ == spec_missing(s),
    }
}

/// Consent derived from the state: blocked by the condition, else granted
/// after a success, else unknown.
pub open spec fn spec_consent(s: StatusState) -> ConsentState {
    if s.conditions.consent_blocked {
        ConsentState::Blocked
    } else if s.last_success is Some {
        ConsentState::Granted
    } else {
        ConsentState::Unknown
    }
}

/// The snapshot derived from the state.
pub open spec fn snapshot_matches(snap: StatusSnapshot, s: StatusState) -> bool {
    &&& snap.operational == s.operational
    &&& snap.conditions@ == spec_condition_list(s.conditions)
    &&& snap.last_success == s.last_success
    &&& snap.dirty == s.dirty
    &&& snap.resume == s.resume
    &&& snap.consent == spec_consent(s)
    &&& snap.offline == (s.operational == OperationalState::Offline)
}

/// The initial state: idle, no condition, nothing observed.
pub open spec fn spec_initial_status() -> StatusState {
    StatusState {
        operational: OperationalState::Idle,
        conditions: ConditionSet {
            auth_failed: false,
            consent_blocked: false,
            over_limit: false,
            vault_unavailable: false,
            update_rolled_back: false,
        },
        last_success: None,
        dirty: false,
        resume: None,
        idle_reached: false,
        credential_readable: false,
        escalation: false,
    }
}

/// A health reason from a string literal.
fn reason_of(text: &str) -> (r: HealthReason)
    ensures
        r.0@ == text@,
{
    HealthReason(string_of(text))
}

impl StatusState {
    /// The initial state.
    pub fn new() -> (s: Self)
        ensures
            s == spec_initial_status(),
    {
        StatusState {
            operational: OperationalState::Idle,
            conditions: ConditionSet::empty(),
            last_success: None,
            dirty: false,
            resume: None,
            idle_reached: false,
            credential_readable: false,
            escalation: false,
        }
    }

    /// Records a liveness signal (monotone: a signal stays observed).
    pub fn observe(&mut self, signal: LivenessSignal)
        ensures
            *final(self) == (match signal {
                LivenessSignal::IdleReached => StatusState { idle_reached: true, ..*old(self) },
                LivenessSignal::CredentialReadable => StatusState {
                    credential_readable: true,
                    ..*old(self)
                },
            }),
    {
        match signal {
            LivenessSignal::IdleReached => self.idle_reached = true,
            LivenessSignal::CredentialReadable => self.credential_readable = true,
        }
    }

    /// The snapshot of the state.
    pub fn snapshot(&self) -> (snap: StatusSnapshot)
        ensures
            snapshot_matches(snap, *self),
            self.conditions.consent_blocked ==> snap.consent == ConsentState::Blocked,
    {
        let conditions = self.conditions.to_vec();
        let offline = self.operational == OperationalState::Offline;
        let consent = if self.conditions.consent_blocked {
            ConsentState::Blocked
        } else if self.last_success.is_some() {
            ConsentState::Granted
        } else {
            ConsentState::Unknown
        };
        StatusSnapshot {
            operational: self.operational,
            conditions,
            last_success: self.last_success,
            dirty: self.dirty,
            resume: self.resume,
            consent,
            offline,
        }
    }

    /// The operational health: unhealthy exactly when a health-critical
    /// condition is active or the escalation flag is set, with one reason
    /// for each.
    pub fn health_check(&self) -> (h: Health)
        ensures
            health_matches(h, *self),
    {
        let mut reasons: Vec<HealthReason> = Vec::new();
        let ghost s = *self;
        if self.conditions.auth_failed {
            reasons.push(reason_of("condition:AuthFailed"));
        }
        if self.conditions.over_limit {
            reasons.push(reason_of("condition:OverLimit"));
        }
        if self.conditions.update_rolled_back {
            reasons.push(reason_of("condition:UpdateRolledBack"));
        }
        if self.escalation {
            reasons.push(reason_of("consecutive_failure_escalation"));
        }
        assert(reason_texts(reasons@) =~= spec_health_reasons(s));
        if reasons.len() == 0 {
            Health::Healthy
        } else {
            Health::Unhealthy { reasons }
        }
    }

    /// The liveness read by the update health wait: alive exactly when both signals were
    /// observed; it reads neither axis.
    pub fn update_probe(&self) -> (l: Liveness)
        ensures
            liveness_matches(l, *self),
    {
        let mut missing: Vec<LivenessSignal> = Vec::new();
        if !self.idle_reached {
            missing.push(LivenessSignal::IdleReached);
        }
        if !self.credential_readable {
            missing.push(LivenessSignal::CredentialReadable);
        }
        assert(missing@ =~= spec_missing(*self));
        if missing.len() == 0 {
            Liveness::Alive
        } else {
            Liveness::NotReady { missing }
        }
    }
}

/// The lock predicate of the status service: every state is allowed.
pub struct AnyStatus;

impl RwLockPredicate<StatusState> for AnyStatus {
    open spec fn inv(self, v: StatusState) -> bool {
        true
    }
}

/// The status aggregation point behind one lock (`StatusSink` and
/// `ReadJudgment`); every read derives a complete value under the lock.
pub struct StatusService {
    inner: RwLock<StatusState, AnyStatus>,
}

impl Default for StatusService {
    fn default() -> Self {
        Self::new()
    }
}

impl StatusService {
    /// A service in the initial state (idle, no condition).
    pub fn new() -> Self {
        StatusService { inner: RwLock::new(StatusState::new(), Ghost(AnyStatus)) }
    }

    /// Applies one change to the state under the write lock.
    fn update(&self, change: StatusChange) {
        let (mut state, handle) = self.inner.acquire_write();
        apply_change(&mut state, change);
        handle.release_write(state);
    }

    /// A copy of the state taken under the read lock.
    fn read(&self) -> StatusState {
        let handle = self.inner.acquire_read();
        let state = *handle.borrow();
        handle.release_read();
        state
    }

    /// Sets or clears the consecutive-failure escalation flag.
    pub fn set_failure_escalation(&self, active: bool) {
        self.update(StatusChange::Escalation(active));
    }

    /// The snapshot of the state held at the call (taken under the read lock,
    /// so it is the snapshot of one whole state).
    pub fn snapshot(&self) -> (snap: StatusSnapshot)
        ensures
            exists|s: StatusState| #[trigger] snapshot_matches(snap, s),
    {
        let state = self.read();
        let snap = state.snapshot();
        assert(snapshot_matches(snap, state));
        snap
    }
}

/// One change pushed into the status.
#[derive(Debug, Clone, Copy, PartialEq, Eq)]
pub enum StatusChange {
    /// Set axis 1.
    Operational(OperationalState),
    /// Raise a condition.
    Raise(ActiveCondition),
    /// Clear a condition.
    Clear(ActiveCondition),
    /// Record a success.
    Success(Timestamp),
    /// Set the dirty flag.
    Dirty(bool),
    /// Set the transfer progress.
    Resume(ByteCount, ByteCount),
    /// Record a liveness signal.
    Liveness(LivenessSignal),
    /// Set the escalation flag.
    Escalation(bool),
}

/// What a change does to the state.
pub open spec fn spec_apply_change(s: StatusState, c: StatusChange) -> StatusState {
    match c {
        StatusChange::Operational(o) => StatusState { operational: o, ..s },
        StatusChange::Raise(k) => StatusState { conditions: set_with(s.conditions, k, true), ..s },
        StatusChange::Clear(k) => StatusState { conditions: set_with(s.conditions, k, false), ..s },
        StatusChange::Success(at) => StatusState { last_success: Some(at), ..s },
        StatusChange::Dirty(d) => StatusState { dirty: d, ..s },
        StatusChange::Resume(t, n) => StatusState { resume: Some((t, n)), ..s },
        StatusChange::Liveness(LivenessSignal::IdleReached) => StatusState {
            idle_reached: true,
            ..s
        },
        StatusChange::Liveness(LivenessSignal::CredentialReadable) => StatusState {
            credential_readable: true,
            ..s
        },
        StatusChange::Escalation(e) => StatusState { escalation: e, ..s },
    }
}

/// Applies one change to the state.
pub fn apply_change(s: &mut StatusState, c: StatusChange)
    ensures
        *final(s) == spec_apply_change(*old(s), c),
{
    match c {
        StatusChange::Operational(o) => s.operational = o,
        StatusChange::Raise(k) => s.conditions.set(k, true),
        StatusChange::Clear(k) => s.conditions.set(k, false),
        StatusChange::Success(at) => s.last_success = Some(at),
        StatusChange::Dirty(d) => s.dirty = d,
        StatusChange::Resume(t, n) => s.resume = Some((t, n)),
        StatusChange::Liveness(sig) => s.observe(sig),
        StatusChange::Escalation(e) => s.escalation = e,
    }
}

impl StatusSink for StatusService {
    fn set_operational(&self, state: OperationalState) {
        self.update(StatusChange::Operational(state));
    }

    fn raise_condition(&self, cond: ActiveCondition) {
        self.update(StatusChange::Raise(cond));
    }

    fn clear_condition(&self, cond: ActiveCondition) {
        self.update(StatusChange::Clear(cond));
    }

    fn record_sync_success(&self, at: Timestamp) {
        self.update(StatusChange::Success(at));
    }

    fn set_dirty(&self, dirty: bool) {
        self.update(StatusChange::Dirty(dirty));
    }

    fn set_resume_progress(&self, transferred: ByteCount, total: ByteCount) {
        self.update(StatusChange::Resume(transferred, total));
    }

    fn set_liveness(&self, signal: LivenessSignal) {
        self.update(StatusChange::Liveness(signal));
    }
}

impl ReadJudgment for StatusService {
    /// A verdict is possible when it is the health of some status state.
    open spec fn judges_health(&self, h: Health) -> bool {
        exists|s: StatusState| #[trigger] health_matches(h, s)
    }

    /// A liveness is possible when it is the liveness of some status state.
    open spec fn probes(&self, l: Liveness) -> bool {
        exists|s: StatusState| #[trigger] liveness_matches(l, s)
    }

    /// The health of the state held at the call.
    fn health_check(&self) -> (h: Health)
        ensures
            exists|s: StatusState| #[trigger] health_matches(h, s),
    {
        let state = self.read();
        let h = state.health_check();
        assert(health_matches(h, state));
        h
    }

    /// The liveness of the state held at the call.
    fn update_probe(&self) -> (l: Liveness)
        ensures
            exists|s: StatusState| #[trigger] liveness_matches(l, s),
    {
        let state = self.read();
        let l = state.update_probe();
        assert(liveness_matches(l, state));
        l
    }
}

// ---------------------------------------------------------------------------
// Laws.
// ---------------------------------------------------------------------------

/// Health flips only on the closed set: the state is unhealthy exactly when
/// one of `AuthFailed`, `OverLimit`, `UpdateRolledBack` is active or the
/// escalation flag is set.
pub proof fn lemma_unhealthy_iff_critical_or_escalation(s: StatusState)
    ensures
        (spec_health_reasons(s).len() > 0) <==> (exists|c: ActiveCondition|
            is_health_critical(c) && #[trigger] set_has(s.conditions, c)) || s.escalation,
{
    if s.conditions.auth_failed {
        assert(set_has(s.conditions, ActiveCondition::AuthFailed));
    }
    if s.conditions.over_limit {
        assert(set_has(s.conditions, ActiveCondition::OverLimit));
    }
    if s.conditions.update_rolled_back {
        assert(set_has(s.conditions, ActiveCondition::UpdateRolledBack));
    }
}

/// The update probe is isolated: changes of axis 1, axis 2, success,
/// dirtiness, progress or escalation leave the probe's verdict unchanged.
pub proof fn lemma_update_probe_isolated(s: StatusState, c: StatusChange)
    requires
        !(c is Liveness),
    ensures
        spec_missing(spec_apply_change(s, c)) == spec_missing(s),
{
}

/// Conditions form an idempotent set: raising twice is raising once, and
/// clearing an absent condition changes nothing.
pub proof fn lemma_conditions_idempotent(s: StatusState, k: ActiveCondition)
    ensures
        spec_apply_change(spec_apply_change(s, StatusChange::Raise(k)), StatusChange::Raise(k))
            == spec_apply_change(s, StatusChange::Raise(k)),
        !set_has(s.conditions, k) ==> spec_apply_change(s, StatusChange::Clear(k)) == s,
{
}

/// Consent in a snapshot: an active `ConsentBlocked` condition always reads
/// `Blocked`, whether or not a sync success was recorded; without it, a
/// recorded success reads `Granted`, and no success reads `Unknown`.
pub proof fn lemma_snapshot_consent(s: StatusState, snap: StatusSnapshot)
    requires
        snapshot_matches(snap, s),
    ensures
        s.conditions.consent_blocked ==> snap.consent == ConsentState::Blocked,
        !s.conditions.consent_blocked && s.last_success is Some ==> snap.consent
            == ConsentState::Granted,
        !s.conditions.consent_blocked && s.last_success is None ==> snap.consent
            == ConsentState::Unknown,
        snap.consent == ConsentState::Blocked <==> s.conditions.consent_blocked,
        snap.offline <==> s.operational == OperationalState::Offline,
        forall|c: ActiveCondition| snap.conditions@.contains(c) <==> #[trigger] set_has(s.conditions, c),
{
    assert forall|c: ActiveCondition| snap.conditions@.contains(c) <==> #[trigger] set_has(
        s.conditions,
        c,
    ) by {
        lemma_condition_list_has(s.conditions, c);
    }
}

/// Membership in `seq_if`.
proof fn lemma_seq_if_contains(b: bool, x: ActiveCondition, y: ActiveCondition)
    ensures
        seq_if(b, x).contains(y) <==> (b && y == x),
{
    if b {
        assert(seq_if(b, x)[0] == x);
    }
}

/// Membership in a concatenation.
proof fn lemma_concat_contains(a: Seq<ActiveCondition>, b: Seq<ActiveCondition>, y: ActiveCondition)
    ensures
        (a + b).contains(y) <==> (a.contains(y) || b.contains(y)),
{
    if a.contains(y) {
        let k = choose|k: int| 0 <= k < a.len() && a[k] == y;
        assert((a + b)[k] == y);
    }
    if b.contains(y) {
        let k = choose|k: int| 0 <= k < b.len() && b[k] == y;
        assert((a + b)[a.len() + k] == y);
    }
    if (a + b).contains(y) {
        let k = choose|k: int| 0 <= k < (a + b).len() && (a + b)[k] == y;
        if k < a.len() {
            assert(a[k] == y);
        } else {
            assert(b[k - a.len()] == y);
        }
    }
}

/// A condition is listed exactly when its flag is set.
proof fn lemma_condition_list_has(cs: ConditionSet, c: ActiveCondition)
    ensures
        spec_condition_list(cs).contains(c) <==> set_has(cs, c),
{
    let p1 = seq_if(cs.auth_failed, ActiveCondition::AuthFailed);
    let p2 = seq_if(cs.consent_blocked, ActiveCondition::ConsentBlocked);
    let p3 = seq_if(cs.over_limit, ActiveCondition::OverLimit);
    let p4 = seq_if(cs.vault_unavailable, ActiveCondition::VaultUnavailable);
    let p5 = seq_if(cs.update_rolled_back, ActiveCondition::UpdateRolledBack);
    lemma_seq_if_contains(cs.auth_failed, ActiveCondition::AuthFailed, c);
    lemma_seq_if_contains(cs.consent_blocked, ActiveCondition::ConsentBlocked, c);
    lemma_seq_if_contains(cs.over_limit, ActiveCondition::OverLimit, c);
    lemma_seq_if_contains(cs.vault_unavailable, ActiveCondition::VaultUnavailable, c);
    lemma_seq_if_contains(cs.update_rolled_back, ActiveCondition::UpdateRolledBack, c);
    lemma_concat_contains(p1, p2, c);
    lemma_concat_contains(p1 + p2, p3, c);
    lemma_concat_contains(p1 + p2 + p3, p4, c);
    lemma_concat_contains(p1 + p2 + p3 + p4, p5, c);
}

/// Raising `ConsentBlocked` on any state makes the next snapshot's consent
/// `Blocked` (also from the initial state, with no success recorded), and
/// clearing it leaves consent to the success record.
pub proof fn lemma_consent_after_raise_and_clear(
    s: StatusState,
    raised: StatusSnapshot,
    cleared: StatusSnapshot,
)
    requires
        snapshot_matches(raised, spec_apply_change(s, StatusChange::Raise(ActiveCondition::ConsentBlocked))),
        snapshot_matches(cleared, spec_apply_change(s, StatusChange::Clear(ActiveCondition::ConsentBlocked))),
    ensures
        raised.consent == ConsentState::Blocked,
        cleared.consent == (if s.last_success is Some {
            ConsentState::Granted
        } else {
            ConsentState::Unknown
        }),
{
}

} // verus!
