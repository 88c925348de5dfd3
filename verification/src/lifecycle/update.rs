//! Automatic update: channel staging, restart, a bounded-time health wait
//! over `update_probe` only, then commit or automatic rollback.
//!
//! Flow of one apply: hold check, `UpdateSource::stage` (fetch and verify),
//! `ServiceManager::restart`, a polling health wait on the injected clock, then
//! `Committed` (the previous version becomes last-good) or `RolledBack`
//! (last-good restored, one rollback report, hold marker set).

use std::time::Duration;

use vstd::prelude::*;

use crate::foundation::core_types::primitives::Timestamp;
use crate::foundation::core_types::sink::{CriticalEventSink, ReadJudgment, RollbackReason, Version};
use crate::foundation::core_types::status::Liveness;
use crate::text::{same_text, string_of};

use super::clock::Clock;
use super::service::{ServiceError, ServiceManager};

verus! {

/// Update channel; `Disabled` makes `check_for_update` always `None`.
#[derive(Debug, Clone, Copy, PartialEq, Eq, Structural)]
pub enum UpdateChannel {
    /// Stable channel.
    Stable,
    /// Beta channel.
    Beta,
    /// Automatic update off.
    Disabled,
}

/// Opaque artifact reference resolved by the update source.
#[derive(Debug, Clone, PartialEq, Eq)]
pub struct ArtifactRef(pub String);

/// Opaque checksum used when staging.
#[derive(Debug, Clone, PartialEq, Eq)]
pub struct Checksum(pub String);

/// An update candidate.
#[derive(Debug, Clone, PartialEq, Eq)]
pub struct UpdateInfo {
    /// Target version.
    pub version: Version,
    /// Artifact reference.
    pub artifact_ref: ArtifactRef,
    /// Staging checksum.
    pub checksum: Checksum,
}

/// The single last-good slot plus the hold marker against rollback loops.
#[derive(Debug, Clone, PartialEq, Eq)]
pub struct RollbackState {
    /// Version restored on rollback.
    pub last_good: Version,
    /// Re-apply is refused until this instant.
    pub hold_until: Option<Timestamp>,
    /// The version last rolled back.
    pub last_rollback: Option<Version>,
}

/// Why an apply was refused.
#[derive(Debug, Clone, Copy, PartialEq, Eq, Structural)]
pub enum HoldReason {
    /// Within the hold window after a rollback.
    Backoff,
}

/// Final state of an apply.
#[derive(Debug, Clone, PartialEq, Eq)]
pub enum UpdateOutcome {
    /// The health wait passed; the new version is committed.
    Committed {
        /// Committed version.
        version: Version,
    },
    /// Rolled back from the attempted version to last-good.
    RolledBack {
        /// Attempted version.
        from: Version,
        /// Restored last-good version.
        to: Version,
        /// `GateTimeout` or `RestartFailed`.
        reason: RollbackReason,
    },
    /// Refused within the hold window, with no staging and no restart.
    Refused {
        /// Reason.
        reason: HoldReason,
    },
}

/// Update errors. Only staging failures (`Download`, `Verify`) reach the
/// caller; restart failure and health wait timeout end as `RolledBack`.
#[derive(Debug, Clone, PartialEq, Eq)]
pub enum UpdateError {
    /// Fetch failed.
    Download,
    /// Checksum or staging verification failed.
    Verify,
    /// Restart failed (internal rollback trigger).
    RestartFailed,
    /// The health wait saw no `Alive` in time (internal rollback trigger).
    GateTimeout,
    /// Underlying I/O failure.
    Io(String),
}

impl UpdateError {
    /// The message of the error.
    pub fn message(&self) -> (s: String)
        ensures
            s@ == match *self {
                UpdateError::Download => "업데이트 다운로드 실패"@,
                UpdateError::Verify => "업데이트 검증 실패"@,
                UpdateError::RestartFailed => "재기동 실패"@,
                UpdateError::GateTimeout => "헬스 게이트 타임아웃"@,
                UpdateError::Io(d) => "업데이트 I/O 실패: "@ + d@,
            },
    {
        match self {
            UpdateError::Download => string_of("업데이트 다운로드 실패"),
            UpdateError::Verify => string_of("업데이트 검증 실패"),
            UpdateError::RestartFailed => string_of("재기동 실패"),
            UpdateError::GateTimeout => string_of("헬스 게이트 타임아웃"),
            UpdateError::Io(d) => {
                let mut s = string_of("업데이트 I/O 실패: ");
                crate::text::push_str(&mut s, d.as_str());
                s
            },
        }
    }
}

/// Update artifact source seam: lookup and staging.
///
/// `offers` and `stages` are the implementation's relations of possible
/// results; by default every result is possible.
pub trait UpdateSource: Send + Sync {
    /// `r` is a lookup result the source can give for `channel` and `current`.
    open spec fn offers(
        &self,
        channel: UpdateChannel,
        current: Version,
        r: Result<Option<UpdateInfo>, UpdateError>,
    ) -> bool {
        true
    }

    /// `r` is a result staging `info` can give.
    open spec fn stages(&self, info: UpdateInfo, r: Result<(), UpdateError>) -> bool {
        true
    }

    /// The candidate for the channel and current version, if any.
    fn check_for_update(&self, channel: UpdateChannel, current: &Version) -> (r: Result<
        Option<UpdateInfo>,
        UpdateError,
    >)
        ensures
            self.offers(channel, *current, r),
    ;

    /// Stages (fetches and verifies) a candidate.
    fn stage(&self, info: &UpdateInfo) -> (r: Result<(), UpdateError>)
        ensures
            self.stages(*info, r),
    ;
}

/// Time parameters of the health wait, in nanoseconds; `t_poll` must be positive
/// for the health wait to make progress on a deterministic clock.
#[derive(Debug, Clone, Copy, PartialEq, Eq, Structural)]
pub struct GateConfig {
    /// Upper bound of the health wait.
    pub t_gate: u64,
    /// Poll interval.
    pub t_poll: u64,
    /// Hold period after a rollback.
    pub t_hold: u64,
}

/// One second in nanoseconds.
pub const NANOS_PER_SEC: u64 = 1_000_000_000;

impl Default for GateConfig {
    /// 30 s bound, 1 s polling, 5 min hold.
    fn default() -> (g: Self)
        ensures
            g.t_gate == 30 * NANOS_PER_SEC,
            g.t_poll == NANOS_PER_SEC,
            g.t_hold == 300 * NANOS_PER_SEC,
    {
        GateConfig { t_gate: 30 * NANOS_PER_SEC, t_poll: NANOS_PER_SEC, t_hold: 300 * NANOS_PER_SEC }
    }
}

/// A duration of the given nanoseconds.
///
/// Trusted: calls `Duration::from_nanos`; nothing is stated of the value,
/// which is only handed to `Clock::sleep`.
#[verifier::external_body]
fn duration_from_nanos(nanos: u64) -> Duration {
    Duration::from_nanos(nanos)
}

/// A nanosecond count clamped into `i64`.
pub open spec fn spec_span_nanos(n: u64) -> i64 {
    if n > i64::MAX as u64 {
        i64::MAX
    } else {
        n as i64
    }
}

/// `a + b` saturated into `i64`.
pub open spec fn spec_saturating_add(a: i64, b: i64) -> i64 {
    if a + b > i64::MAX {
        i64::MAX
    } else if a + b < i64::MIN {
        i64::MIN
    } else {
        (a + b) as i64
    }
}

/// Clamps a nanosecond count into `i64`.
pub fn span_nanos(n: u64) -> (r: i64)
    ensures
        r == spec_span_nanos(n),
{
    if n > i64::MAX as u64 {
        i64::MAX
    } else {
        n as i64
    }
}

/// Saturating `i64` addition.
pub fn saturating_add(a: i64, b: i64) -> (r: i64)
    ensures
        r == spec_saturating_add(a, b),
{
    if b > 0 && a > i64::MAX - b {
        i64::MAX
    } else if b < 0 && a < i64::MIN - b {
        i64::MIN
    } else {
        a + b
    }
}

/// The instant until which re-apply is held after a rollback at `now`.
pub open spec fn spec_hold_until(now: Timestamp, t_hold: u64) -> Timestamp {
    Timestamp(spec_saturating_add(now.0, spec_span_nanos(t_hold)))
}

/// A hold set at some clock reading: `hold_until` is that reading plus `t_hold`.
pub open spec fn is_hold_after(hold_until: Option<Timestamp>, t_hold: u64) -> bool {
    exists|now: Timestamp| hold_until == Some(#[trigger] spec_hold_until(now, t_hold))
}

/// The text of a rollback reason.
pub open spec fn spec_reason_text(timed_out: bool) -> Seq<char> {
    if timed_out {
        "GateTimeout"@
    } else {
        "RestartFailed"@
    }
}

/// The rollback reason for a health wait timeout or a restart failure.
pub fn rollback_reason(timed_out: bool) -> (r: RollbackReason)
    ensures
        r.0@ == spec_reason_text(timed_out),
{
    if timed_out {
        RollbackReason(string_of("GateTimeout"))
    } else {
        RollbackReason(string_of("RestartFailed"))
    }
}

/// Result of the health wait.
#[derive(Debug, Clone, Copy, PartialEq, Eq, Structural)]
pub enum GateResult {
    /// `Alive` seen within the bound.
    Passed,
    /// No `Alive` until the bound elapsed.
    TimedOut,
}

/// What the health wait does after one probe.
#[derive(Debug, Clone, Copy, PartialEq, Eq, Structural)]
pub enum GateStep {
    /// Stop: passed.
    Pass,
    /// Stop: timed out.
    Timeout,
    /// Sleep one poll interval and probe again.
    Wait,
}

/// One health wait decision: `Alive` passes; otherwise reaching the deadline times out.
pub open spec fn spec_gate_step(probe: Liveness, now: Timestamp, deadline: i64) -> GateStep {
    match probe {
        Liveness::Alive => GateStep::Pass,
        _ => if now.0 >= deadline {
            GateStep::Timeout
        } else {
            GateStep::Wait
        },
    }
}

/// Decides one health wait step from a probe result and the clock reading after it.
pub fn gate_step(probe: &Liveness, now: Timestamp, deadline: i64) -> (s: GateStep)
    ensures
        s == spec_gate_step(*probe, now, deadline),
{
    match probe {
        Liveness::Alive => GateStep::Pass,
        _ => if now.0 >= deadline {
            GateStep::Timeout
        } else {
            GateStep::Wait
        },
    }
}

/// The bounded-time health wait over `update_probe` only: pass on `Alive`, time out
/// once the clock reaches `start + t_gate` after a non-`Alive` probe, else
/// sleep `t_poll`. It also gives up as timed out after `u64::MAX` probes.
fn run_gate(probe: &Box<dyn ReadJudgment>, clock: &dyn Clock, t_gate: u64, t_poll: u64) -> (r: GateResult)
    ensures
        r == GateResult::Passed ==> probe.probes(Liveness::Alive),
        r == GateResult::TimedOut ==> exists|l: Liveness|
            #[trigger] probe.probes(l) && l != Liveness::Alive,
        (forall|l: Liveness| #[trigger] probe.probes(l) ==> l == Liveness::Alive) ==> r
            == GateResult::Passed,
{
    let start = clock.now().0;
    let deadline = saturating_add(start, span_nanos(t_gate));
    let mut polls: u64 = 0;
    while polls < u64::MAX
        invariant
            polls > 0 ==> exists|l: Liveness| #[trigger] probe.probes(l) && l != Liveness::Alive,
        decreases u64::MAX - polls,
    {
        let seen = probe.update_probe();
        assert(probe.probes(seen));
        let step = match seen {
            Liveness::Alive => GateStep::Pass,
            _ => gate_step(&seen, clock.now(), deadline),
        };
        match step {
            GateStep::Pass => {
                return GateResult::Passed;
            },
            GateStep::Timeout => {
                return GateResult::TimedOut;
            },
            GateStep::Wait => {
                clock.sleep(duration_from_nanos(t_poll));
            },
        }
        polls = polls + 1;
    }
    GateResult::TimedOut
}

/// What one apply decides, from what the steps gave.
#[derive(Debug, Clone, PartialEq, Eq)]
pub enum UpdateDecision {
    /// Refuse within the hold window.
    Refuse,
    /// Return the staging error unchanged.
    Fail(UpdateError),
    /// Commit the attempted version.
    Commit,
    /// Roll back; `timed_out` tells a health wait timeout from a failed restart.
    RollBack {
        /// Whether the health wait timed out (else the restart failed).
        timed_out: bool,
    },
}

/// The decision of one apply: an active hold refuses; else a staging error
/// is returned; else a failed restart rolls back; else a passed health wait
/// commits and a timed-out one rolls back. Later inputs do not matter once
/// an earlier step decided.
pub open spec fn spec_settle(
    hold_blocks: bool,
    staged: Result<(), UpdateError>,
    restarted: bool,
    gate: GateResult,
) -> UpdateDecision {
    if hold_blocks {
        UpdateDecision::Refuse
    } else {
        match staged {
            Err(e) => UpdateDecision::Fail(e),
            Ok(()) => if !restarted {
                UpdateDecision::RollBack { timed_out: false }
            } else {
                match gate {
                    GateResult::Passed => UpdateDecision::Commit,
                    GateResult::TimedOut => UpdateDecision::RollBack { timed_out: true },
                }
            },
        }
    }
}

/// Decides one apply from the hold check, the staging result, whether the
/// restart succeeded and the health wait's result.
pub fn settle(hold_blocks: bool, staged: Result<(), UpdateError>, restarted: bool, gate: GateResult) -> (d:
    UpdateDecision)
    ensures
        d == spec_settle(hold_blocks, staged, restarted, gate),
{
    if hold_blocks {
        return UpdateDecision::Refuse;
    }
    match staged {
        Err(e) => UpdateDecision::Fail(e),
        Ok(()) => if !restarted {
            UpdateDecision::RollBack { timed_out: false }
        } else {
            match gate {
                GateResult::Passed => UpdateDecision::Commit,
                GateResult::TimedOut => UpdateDecision::RollBack { timed_out: true },
            }
        },
    }
}

/// Whether an apply's result is the one a decision calls for.
pub open spec fn outcome_follows(
    r: Result<UpdateOutcome, UpdateError>,
    d: UpdateDecision,
    attempted: Version,
    last_good: Version,
) -> bool {
    match d {
        UpdateDecision::Refuse => r == Ok::<UpdateOutcome, UpdateError>(
            UpdateOutcome::Refused { reason: HoldReason::Backoff },
        ),
        UpdateDecision::Fail(e) => r == Err::<UpdateOutcome, UpdateError>(e),
        UpdateDecision::Commit => r == Ok::<UpdateOutcome, UpdateError>(
            UpdateOutcome::Committed { version: attempted },
        ),
        UpdateDecision::RollBack { timed_out } => r matches Ok(
            UpdateOutcome::RolledBack { from, to, reason },
        ) && from == attempted && to == last_good && reason.0@ == spec_reason_text(timed_out),
    }
}

/// Whether two versions hold the same text.
pub fn same_version(a: &Version, b: &Version) -> (r: bool)
    ensures
        r == (a.0@ == b.0@),
{
    same_text(a.0.as_str(), b.0.as_str())
}

/// A candidate kept only when its version differs from the current one.
pub open spec fn spec_filter_candidate(candidate: Option<UpdateInfo>, current: Version) -> Option<
    UpdateInfo,
> {
    match candidate {
        Some(info) => if info.version.0@ != current.0@ {
            Some(info)
        } else {
            None
        },
        None => None,
    }
}

/// Drops a candidate whose version equals the current one (a no-op update).
pub fn filter_candidate(candidate: Option<UpdateInfo>, current: &Version) -> (r: Option<UpdateInfo>)
    ensures
        r == spec_filter_candidate(candidate, *current),
{
    match candidate {
        Some(info) => if !same_version(&info.version, current) {
            Some(info)
        } else {
            None
        },
        None => None,
    }
}

/// Channel staging plus health wait plus automatic rollback.
pub struct AutoUpdater {
    source: Box<dyn UpdateSource>,
    service: ServiceManager,
    probe: Box<dyn ReadJudgment>,
    critical: Box<dyn CriticalEventSink>,
    clock: Box<dyn Clock>,
    channel: UpdateChannel,
    gate: GateConfig,
    current: Version,
    state: RollbackState,
}

impl AutoUpdater {
    /// The running version.
    pub closed spec fn spec_current(&self) -> Version {
        self.current
    }

    /// The rollback state.
    pub closed spec fn spec_state(&self) -> RollbackState {
        self.state
    }

    /// The configured channel.
    pub closed spec fn spec_channel(&self) -> UpdateChannel {
        self.channel
    }

    /// The health wait parameters.
    pub closed spec fn spec_gate(&self) -> GateConfig {
        self.gate
    }

    /// `r` is a lookup result the source can give.
    pub closed spec fn source_offers(
        &self,
        channel: UpdateChannel,
        current: Version,
        r: Result<Option<UpdateInfo>, UpdateError>,
    ) -> bool {
        self.source.offers(channel, current, r)
    }

    /// `r` is a result staging `info` at the source can give.
    pub closed spec fn source_stages(&self, info: UpdateInfo, r: Result<(), UpdateError>) -> bool {
        self.source.stages(info, r)
    }

    /// `r` is a result restarting the service can give.
    pub closed spec fn service_restarts(&self, r: Result<(), ServiceError>) -> bool {
        self.service.restarts(r)
    }

    /// The critical sink's `reported_rollback` fact for these values.
    pub closed spec fn critical_reported_rollback(
        &self,
        from: Version,
        to: Version,
        reason: RollbackReason,
    ) -> bool {
        self.critical.reported_rollback(from, to, reason)
    }

    /// `t` is an instant the clock can give.
    pub closed spec fn clock_reads(&self, t: Timestamp) -> bool {
        self.clock.reads(t)
    }

    /// The update probe can report something other than `Alive`.
    pub closed spec fn probe_can_fail(&self) -> bool {
        exists|l: Liveness| #[trigger] self.probe.probes(l) && l != Liveness::Alive
    }

    /// The update probe can report `Alive`.
    pub closed spec fn probe_can_pass(&self) -> bool {
        self.probe.probes(Liveness::Alive)
    }

    /// One apply explained by what its steps gave: with a hold marker, `now`
    /// is a clock reading and the hold blocks exactly when `now` is before
    /// the marker (without one it never blocks); without a blocking hold,
    /// `staged` is a result of staging `info`; after a successful staging,
    /// `restart` is a result of the restart; a passed health wait needs a
    /// probe that can report `Alive`, a timed-out one a probe that can report
    /// something else; and the result is what `spec_settle` decides.
    pub open spec fn apply_explained(
        &self,
        info: UpdateInfo,
        now: Timestamp,
        hold_blocks: bool,
        staged: Result<(), UpdateError>,
        restart: Result<(), ServiceError>,
        gate: GateResult,
        r: Result<UpdateOutcome, UpdateError>,
    ) -> bool {
        &&& match self.spec_state().hold_until {
            Some(h) => self.clock_reads(now) && hold_blocks == (now.0 < h.0),
            None => !hold_blocks,
        }
        &&& !hold_blocks ==> self.source_stages(info, staged)
        &&& (!hold_blocks && staged is Ok) ==> self.service_restarts(restart)
        &&& (!hold_blocks && staged is Ok && restart is Ok && gate == GateResult::Passed)
            ==> self.probe_can_pass()
        &&& (!hold_blocks && staged is Ok && restart is Ok && gate == GateResult::TimedOut)
            ==> self.probe_can_fail()
        &&& outcome_follows(
            r,
            spec_settle(hold_blocks, staged, restart is Ok, gate),
            info.version,
            self.spec_state().last_good,
        )
    }

    /// An updater over the injected dependencies; last-good starts as the
    /// current version, with no hold and no rollback recorded.
    #[allow(clippy::too_many_arguments)]
    pub fn new(
        source: Box<dyn UpdateSource>,
        service: ServiceManager,
        probe: Box<dyn ReadJudgment>,
        critical: Box<dyn CriticalEventSink>,
        clock: Box<dyn Clock>,
        channel: UpdateChannel,
        gate: GateConfig,
        current: Version,
    ) -> (u: Self)
        ensures
            u.spec_current() == current,
            u.spec_state() == (RollbackState {
                last_good: current,
                hold_until: None,
                last_rollback: None,
            }),
            u.spec_channel() == channel,
            u.spec_gate() == gate,
    {
        let state = RollbackState { last_good: current.clone(), hold_until: None, last_rollback: None };
        AutoUpdater { source, service, probe, critical, clock, channel, gate, current, state }
    }

    /// The rollback state.
    pub fn rollback_state(&self) -> (s: &RollbackState)
        ensures
            *s == self.spec_state(),
    {
        &self.state
    }

    /// The running version.
    pub fn current_version(&self) -> (v: &Version)
        ensures
            *v == self.spec_current(),
    {
        &self.current
    }

    /// Looks up a candidate: always `None` on `Disabled`; otherwise what the
    /// source offers, minus a candidate equal to the current version.
    pub fn check_for_update(&self) -> (r: Result<Option<UpdateInfo>, UpdateError>)
        ensures
            self.spec_channel() == UpdateChannel::Disabled ==> r == Ok::<
                Option<UpdateInfo>,
                UpdateError,
            >(None),
            r matches Ok(Some(info)) ==> info.version.0@ != self.spec_current().0@,
            self.spec_channel() != UpdateChannel::Disabled ==> exists|
                found: Result<Option<UpdateInfo>, UpdateError>,
            |
                #[trigger] self.source_offers(self.spec_channel(), self.spec_current(), found)
                    && r == match found {
                    Err(e) => Err::<Option<UpdateInfo>, UpdateError>(e),
                    Ok(c) => Ok(spec_filter_candidate(c, self.spec_current())),
                },
    {
        if self.channel == UpdateChannel::Disabled {
            return Ok(None);
        }
        let found = self.source.check_for_update(self.channel, &self.current);
        assert(self.source_offers(self.spec_channel(), self.spec_current(), found));
        match found {
            Err(e) => Err(e),
            Ok(candidate) => Ok(filter_candidate(candidate, &self.current)),
        }
    }

    /// Applies one update. In order: refuse (`Refused`) while a hold is set
    /// and the clock is before it; stage, returning its error unchanged with
    /// no state change; restart, rolling back with `RestartFailed` when it
    /// fails; run the health wait, committing on pass and rolling back with
    /// `GateTimeout` on timeout. A commit makes the previous version
    /// last-good and clears the hold; a rollback restores last-good, reports
    /// once to the critical sink, records the attempted version and sets the
    /// hold to the clock reading plus `t_hold`.
    pub fn apply_update(&mut self, info: UpdateInfo) -> (r: Result<UpdateOutcome, UpdateError>)
        ensures
            final(self).spec_channel() == old(self).spec_channel(),
            final(self).spec_gate() == old(self).spec_gate(),
            old(self).spec_state().hold_until is None ==> !(r matches Ok(
                UpdateOutcome::Refused { .. },
            )),
            match r {
                Ok(UpdateOutcome::Refused { reason }) => {
                    &&& reason == HoldReason::Backoff
                    &&& old(self).spec_state().hold_until is Some
                    &&& final(self).spec_current() == old(self).spec_current()
                    &&& final(self).spec_state() == old(self).spec_state()
                },
                Err(_) => {
                    &&& final(self).spec_current() == old(self).spec_current()
                    &&& final(self).spec_state() == old(self).spec_state()
                },
                Ok(UpdateOutcome::Committed { version }) => {
                    &&& version == info.version
                    &&& final(self).spec_current() == info.version
                    &&& final(self).spec_state() == (RollbackState {
                        last_good: old(self).spec_current(),
                        hold_until: None,
                        last_rollback: old(self).spec_state().last_rollback,
                    })
                },
                Ok(UpdateOutcome::RolledBack { from, to, reason }) => {
                    &&& from == info.version
                    &&& to == old(self).spec_state().last_good
                    &&& (reason.0@ == spec_reason_text(true) || reason.0@ == spec_reason_text(
                        false,
                    ))
                    &&& final(self).spec_current() == old(self).spec_state().last_good
                    &&& final(self).spec_state().last_good == old(self).spec_state().last_good
                    &&& final(self).spec_state().last_rollback == Some(info.version)
                    &&& is_hold_after(final(self).spec_state().hold_until, old(self).spec_gate().t_hold)
                    &&& old(self).critical_reported_rollback(from, to, reason)
                },
            },
            exists|
                now: Timestamp,
                hold_blocks: bool,
                staged: Result<(), UpdateError>,
                restart: Result<(), ServiceError>,
                gate: GateResult,
            |
                #[trigger] old(self).apply_explained(info, now, hold_blocks, staged, restart, gate, r),
            ({
                let hold_passes = match old(self).spec_state().hold_until {
                    Some(h) => forall|t: Timestamp| #[trigger] old(self).clock_reads(t) ==> t.0 >= h.0,
                    None => true,
                };
                hold_passes && (forall|x: Result<(), UpdateError>|
                    #[trigger] old(self).source_stages(info, x) ==> x is Ok) && (forall|
                    x: Result<(), ServiceError>,
                | #[trigger] old(self).service_restarts(x) ==> x is Ok) && !old(self).probe_can_fail()
            }) ==> r == Ok::<UpdateOutcome, UpdateError>(
                UpdateOutcome::Committed { version: info.version },
            ),
            (old(self).spec_state().hold_until matches Some(h) && forall|t: Timestamp|
                #[trigger] old(self).clock_reads(t) ==> t.0 < h.0) ==> r == Ok::<
                UpdateOutcome,
                UpdateError,
            >(UpdateOutcome::Refused { reason: HoldReason::Backoff }),
    {
        let ghost mut now = Timestamp(0);
        let hold_blocks = match self.state.hold_until {
            Some(hold) => {
                let t = self.clock.now();
                proof {
                    now = t;
                }
                t.0 < hold.0
            },
            None => false,
        };
        let staged = if hold_blocks {
            Ok(())
        } else {
            self.source.stage(&info)
        };
        let restart = if !hold_blocks && staged.is_ok() {
            self.service.restart()
        } else {
            Ok(())
        };
        let gate = if !hold_blocks && staged.is_ok() && restart.is_ok() {
            run_gate(&self.probe, &*self.clock, self.gate.t_gate, self.gate.t_poll)
        } else {
            GateResult::TimedOut
        };
        assert(!hold_blocks ==> old(self).source_stages(info, staged));
        assert((!hold_blocks && staged is Ok) ==> old(self).service_restarts(restart));
        assert((!hold_blocks && staged is Ok && restart is Ok && gate == GateResult::Passed)
            ==> old(self).probe_can_pass());
        let attempted = info.version.clone();
        let decision = settle(hold_blocks, staged, restart.is_ok(), gate);
        let r = match decision {
            UpdateDecision::Refuse => Ok(UpdateOutcome::Refused { reason: HoldReason::Backoff }),
            UpdateDecision::Fail(e) => Err(e),
            UpdateDecision::Commit => Ok(self.commit(attempted)),
            UpdateDecision::RollBack { timed_out } => Ok(self.rollback(attempted, timed_out)),
        };
        assert(outcome_follows(r, decision, info.version, old(self).spec_state().last_good));
        assert(old(self).apply_explained(info, now, hold_blocks, staged, restart, gate, r));
        r
    }

    /// Commits: the attempted version becomes current, the previous one
    /// last-good, and the hold is cleared.
    fn commit(&mut self, attempted: Version) -> (o: UpdateOutcome)
        ensures
            o == (UpdateOutcome::Committed { version: attempted }),
            final(self).current == attempted,
            final(self).state == (RollbackState {
                last_good: old(self).current,
                hold_until: None,
                last_rollback: old(self).state.last_rollback,
            }),
            final(self).channel == old(self).channel,
            final(self).gate == old(self).gate,
    {
        let mut previous = attempted.clone();
        std::mem::swap(&mut self.current, &mut previous);
        self.state.last_good = previous;
        self.state.hold_until = None;
        UpdateOutcome::Committed { version: attempted }
    }

    /// Rolls back: restores last-good (best-effort restart, result ignored),
    /// reports once, records the attempted version and sets the hold.
    fn rollback(&mut self, attempted: Version, timed_out: bool) -> (o: UpdateOutcome)
        ensures
            o matches UpdateOutcome::RolledBack { from, to, reason } && from == attempted && to
                == old(self).state.last_good && reason.0@ == spec_reason_text(timed_out),
            final(self).current == old(self).state.last_good,
            final(self).state.last_good == old(self).state.last_good,
            final(self).state.last_rollback == Some(attempted),
            is_hold_after(final(self).state.hold_until, old(self).gate.t_hold),
            final(self).channel == old(self).channel,
            final(self).gate == old(self).gate,
            o matches UpdateOutcome::RolledBack { from, to, reason }
                && old(self).critical_reported_rollback(from, to, reason),
    {
        let to = self.state.last_good.clone();
        let _ = self.service.restart();
        let reason = rollback_reason(timed_out);
        self.critical.report_update_rollback(attempted.clone(), to.clone(), reason.clone());
        let now = self.clock.now();
        let hold = Timestamp(saturating_add(now.0, span_nanos(self.gate.t_hold)));
        assert(hold == spec_hold_until(now, self.gate.t_hold));
        self.state.hold_until = Some(hold);
        self.state.last_rollback = Some(attempted.clone());
        self.current = to.clone();
        UpdateOutcome::RolledBack { from: attempted, to, reason }
    }
}

} // verus!
