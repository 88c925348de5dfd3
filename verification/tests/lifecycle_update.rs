use std::collections::VecDeque;
use std::sync::{Arc, Mutex};
use std::time::Duration;

use okc_hooks::foundation::core_types::error::TransportError;
use okc_hooks::foundation::core_types::primitives::Timestamp;
use okc_hooks::foundation::core_types::sink::{
    CriticalEventSink, CycleOutcome, LimitReport, ReadJudgment, RollbackReason, Version,
};
use okc_hooks::foundation::core_types::status::{Health, Liveness, LivenessSignal};
use okc_hooks::lifecycle::clock::Clock;
use okc_hooks::lifecycle::service::{
    ServiceController, ServiceError, ServiceManager, ServiceRegistration, ServiceSpec,
};
use okc_hooks::lifecycle::update::{
    gate_step, settle, ArtifactRef, GateResult, AutoUpdater, Checksum, GateConfig, GateStep, HoldReason, UpdateChannel,
    UpdateDecision, UpdateError, UpdateInfo, UpdateOutcome, UpdateSource, NANOS_PER_SEC,
};

#[derive(Debug, Default)]
struct ControllerState {
    registered: bool,
    running: bool,
    fail_start: bool,
}

#[derive(Clone, Default)]
struct FakeController {
    state: Arc<Mutex<ControllerState>>,
}

impl FakeController {
    fn running() -> Self {
        let c = FakeController::default();
        {
            let mut s = c.state.lock().unwrap();
            s.registered = true;
            s.running = true;
        }
        c
    }

    fn failing_start(self) -> Self {
        self.state.lock().unwrap().fail_start = true;
        self
    }
}

impl ServiceController for FakeController {
    fn register(&self, _spec: &ServiceSpec) -> Result<(), ServiceError> {
        self.state.lock().unwrap().registered = true;
        Ok(())
    }
    fn deregister(&self) -> Result<(), ServiceError> {
        self.state.lock().unwrap().registered = false;
        Ok(())
    }
    fn enable_autostart(&self) -> Result<(), ServiceError> {
        Ok(())
    }
    fn start(&self) -> Result<(), ServiceError> {
        let mut s = self.state.lock().unwrap();
        if !s.registered {
            return Err(ServiceError::NotInstalled);
        }
        if s.fail_start {
            return Err(ServiceError::PermissionDenied);
        }
        s.running = true;
        Ok(())
    }
    fn stop(&self) -> Result<(), ServiceError> {
        let mut s = self.state.lock().unwrap();
        if !s.registered {
            return Err(ServiceError::NotInstalled);
        }
        s.running = false;
        Ok(())
    }
    fn query(&self) -> Result<ServiceRegistration, ServiceError> {
        let s = self.state.lock().unwrap();
        Ok(ServiceRegistration { registered: s.registered, running: s.running, pid: None })
    }
}

#[derive(Clone)]
struct FakeClock {
    nanos: Arc<Mutex<i64>>,
}

impl FakeClock {
    fn new(start: i64) -> Self {
        FakeClock { nanos: Arc::new(Mutex::new(start)) }
    }
}

impl Clock for FakeClock {
    fn now(&self) -> Timestamp {
        Timestamp::from_unix_nanos(*self.nanos.lock().unwrap())
    }
    fn sleep(&self, dur: Duration) {
        let add = i64::try_from(dur.as_nanos()).unwrap_or(i64::MAX);
        let mut n = self.nanos.lock().unwrap();
        *n = n.saturating_add(add);
    }
}

fn not_ready() -> Liveness {
    Liveness::NotReady { missing: vec![LivenessSignal::IdleReached] }
}

struct ScriptedProbe {
    seq: Mutex<VecDeque<Liveness>>,
    default: Liveness,
}

impl ScriptedProbe {
    fn alive_now() -> Self {
        ScriptedProbe { seq: Mutex::new(VecDeque::from(vec![Liveness::Alive])), default: Liveness::Alive }
    }
    fn never_alive() -> Self {
        ScriptedProbe { seq: Mutex::new(VecDeque::new()), default: not_ready() }
    }
    fn alive_after(n: usize) -> Self {
        let mut seq = vec![not_ready(); n];
        seq.push(Liveness::Alive);
        ScriptedProbe { seq: Mutex::new(VecDeque::from(seq)), default: Liveness::Alive }
    }
}

impl ReadJudgment for ScriptedProbe {
    fn health_check(&self) -> Health {
        Health::Healthy
    }
    fn update_probe(&self) -> Liveness {
        self.seq.lock().unwrap().pop_front().unwrap_or_else(|| self.default.clone())
    }
}

#[derive(Default)]
struct RecordingCritical {
    rollbacks: Mutex<Vec<(Version, Version, RollbackReason)>>,
}

impl RecordingCritical {
    fn rollback_calls(&self) -> Vec<(Version, Version, RollbackReason)> {
        self.rollbacks.lock().unwrap().clone()
    }
}

struct SharedCritical(Arc<RecordingCritical>);

impl CriticalEventSink for SharedCritical {
    fn report_auth_failure(&self, _detail: TransportError) {}
    fn report_cycle_result(&self, _outcome: CycleOutcome) {}
    fn report_preflight_exceeded(&self, _report: LimitReport) {}
    fn report_update_rollback(&self, from: Version, to: Version, reason: RollbackReason) {
        self.0.rollbacks.lock().unwrap().push((from, to, reason));
    }
}

struct SourceInner {
    stage_error: Option<UpdateError>,
    candidate: Option<UpdateInfo>,
    stage_count: Mutex<usize>,
}

#[derive(Clone)]
struct FakeUpdateSource {
    inner: Arc<SourceInner>,
}

impl FakeUpdateSource {
    fn build(stage_error: Option<UpdateError>, candidate: Option<UpdateInfo>) -> Self {
        FakeUpdateSource {
            inner: Arc::new(SourceInner { stage_error, candidate, stage_count: Mutex::new(0) }),
        }
    }
    fn ok() -> Self {
        Self::build(None, None)
    }
    fn verify_fails() -> Self {
        Self::build(Some(UpdateError::Verify), None)
    }
    fn offers(candidate: UpdateInfo) -> Self {
        Self::build(None, Some(candidate))
    }
    fn stage_count(&self) -> usize {
        *self.inner.stage_count.lock().unwrap()
    }
}

impl UpdateSource for FakeUpdateSource {
    fn check_for_update(
        &self,
        _channel: UpdateChannel,
        _current: &Version,
    ) -> Result<Option<UpdateInfo>, UpdateError> {
        Ok(self.inner.candidate.clone())
    }
    fn stage(&self, _info: &UpdateInfo) -> Result<(), UpdateError> {
        *self.inner.stage_count.lock().unwrap() += 1;
        match &self.inner.stage_error {
            Some(e) => Err(e.clone()),
            None => Ok(()),
        }
    }
}

fn v(s: &str) -> Version {
    Version(s.to_string())
}

fn info(version: &str) -> UpdateInfo {
    UpdateInfo {
        version: v(version),
        artifact_ref: ArtifactRef("ref".to_string()),
        checksum: Checksum("sum".to_string()),
    }
}

fn fast_gate() -> GateConfig {
    GateConfig { t_gate: 10 * NANOS_PER_SEC, t_poll: NANOS_PER_SEC, t_hold: 300 * NANOS_PER_SEC }
}

fn build(
    source: FakeUpdateSource,
    controller: FakeController,
    probe: ScriptedProbe,
    critical: Arc<RecordingCritical>,
    clock: FakeClock,
) -> AutoUpdater {
    let mgr = ServiceManager::new(Box::new(controller));
    AutoUpdater::new(
        Box::new(source),
        mgr,
        Box::new(probe),
        Box::new(SharedCritical(critical)),
        Box::new(clock),
        UpdateChannel::Stable,
        fast_gate(),
        v("1.0.0"),
    )
}

#[test]
fn gate_pass_commits_and_succeeds_last_good() {
    let critical = Arc::new(RecordingCritical::default());
    let mut au = build(
        FakeUpdateSource::ok(),
        FakeController::running(),
        ScriptedProbe::alive_now(),
        critical.clone(),
        FakeClock::new(0),
    );
    let out = au.apply_update(info("2.0.0")).unwrap();
    assert_eq!(out, UpdateOutcome::Committed { version: v("2.0.0") });
    assert_eq!(au.current_version(), &v("2.0.0"));
    assert_eq!(au.rollback_state().last_good, v("1.0.0"));
    assert!(critical.rollback_calls().is_empty());
}

#[test]
fn gate_timeout_rolls_back_and_notifies_once() {
    let critical = Arc::new(RecordingCritical::default());
    let mut au = build(
        FakeUpdateSource::ok(),
        FakeController::running(),
        ScriptedProbe::never_alive(),
        critical.clone(),
        FakeClock::new(0),
    );
    let out = au.apply_update(info("2.0.0")).unwrap();
    assert_eq!(
        out,
        UpdateOutcome::RolledBack {
            from: v("2.0.0"),
            to: v("1.0.0"),
            reason: RollbackReason("GateTimeout".to_string()),
        }
    );
    assert_eq!(critical.rollback_calls().len(), 1);
    assert_eq!(au.current_version(), &v("1.0.0"));
}

#[test]
fn restart_failure_rolls_back() {
    let critical = Arc::new(RecordingCritical::default());
    let mut au = build(
        FakeUpdateSource::ok(),
        FakeController::running().failing_start(),
        ScriptedProbe::alive_now(),
        critical.clone(),
        FakeClock::new(0),
    );
    let out = au.apply_update(info("2.0.0")).unwrap();
    match out {
        UpdateOutcome::RolledBack { reason, .. } => {
            assert_eq!(reason, RollbackReason("RestartFailed".to_string()));
        }
        other => panic!("expected RolledBack, got {other:?}"),
    }
    assert_eq!(critical.rollback_calls().len(), 1);
}

#[test]
fn staging_failure_returns_error_no_state_change() {
    let critical = Arc::new(RecordingCritical::default());
    let mut au = build(
        FakeUpdateSource::verify_fails(),
        FakeController::running(),
        ScriptedProbe::alive_now(),
        critical.clone(),
        FakeClock::new(0),
    );
    assert_eq!(au.apply_update(info("2.0.0")), Err(UpdateError::Verify));
    assert_eq!(au.current_version(), &v("1.0.0"));
    assert!(au.rollback_state().hold_until.is_none());
    assert!(critical.rollback_calls().is_empty());
}

#[test]
fn hold_after_rollback_refuses_reapply_without_staging() {
    let critical = Arc::new(RecordingCritical::default());
    let source = FakeUpdateSource::ok();
    let stage_handle = source.clone();
    let mut au = build(
        source,
        FakeController::running(),
        ScriptedProbe::never_alive(),
        critical.clone(),
        FakeClock::new(0),
    );
    let first = au.apply_update(info("2.0.0")).unwrap();
    assert!(matches!(first, UpdateOutcome::RolledBack { .. }));
    let staged_after_first = stage_handle.stage_count();
    let second = au.apply_update(info("2.0.1")).unwrap();
    assert_eq!(second, UpdateOutcome::Refused { reason: HoldReason::Backoff });
    assert_eq!(stage_handle.stage_count(), staged_after_first);
}

#[test]
fn disabled_channel_never_finds_update() {
    let critical = Arc::new(RecordingCritical::default());
    let mgr = ServiceManager::new(Box::new(FakeController::running()));
    let au = AutoUpdater::new(
        Box::new(FakeUpdateSource::offers(info("9.9.9"))),
        mgr,
        Box::new(ScriptedProbe::alive_now()),
        Box::new(SharedCritical(critical)),
        Box::new(FakeClock::new(0)),
        UpdateChannel::Disabled,
        fast_gate(),
        v("1.0.0"),
    );
    assert_eq!(au.check_for_update().unwrap(), None);
}

#[test]
fn same_version_candidate_is_a_no_op() {
    let critical = Arc::new(RecordingCritical::default());
    let mgr = ServiceManager::new(Box::new(FakeController::running()));
    let au = AutoUpdater::new(
        Box::new(FakeUpdateSource::offers(info("1.0.0"))),
        mgr,
        Box::new(ScriptedProbe::alive_now()),
        Box::new(SharedCritical(critical.clone())),
        Box::new(FakeClock::new(0)),
        UpdateChannel::Beta,
        fast_gate(),
        v("1.0.0"),
    );
    assert_eq!(au.check_for_update().unwrap(), None);
    let mgr = ServiceManager::new(Box::new(FakeController::running()));
    let au = AutoUpdater::new(
        Box::new(FakeUpdateSource::offers(info("1.1.0"))),
        mgr,
        Box::new(ScriptedProbe::alive_now()),
        Box::new(SharedCritical(critical)),
        Box::new(FakeClock::new(0)),
        UpdateChannel::Stable,
        fast_gate(),
        v("1.0.0"),
    );
    assert_eq!(au.check_for_update().unwrap(), Some(info("1.1.0")));
}

#[test]
fn gate_passes_after_late_alive_and_hold_is_clock_plus_t_hold() {
    let critical = Arc::new(RecordingCritical::default());
    let mut au = build(
        FakeUpdateSource::ok(),
        FakeController::running(),
        ScriptedProbe::alive_after(3),
        critical.clone(),
        FakeClock::new(0),
    );
    let out = au.apply_update(info("2.0.0")).unwrap();
    assert_eq!(out, UpdateOutcome::Committed { version: v("2.0.0") });

    let clock = FakeClock::new(5);
    let mut au = build(
        FakeUpdateSource::ok(),
        FakeController::running(),
        ScriptedProbe::never_alive(),
        critical,
        clock,
    );
    au.apply_update(info("3.0.0")).unwrap();
    // Timed out at start + 10 s after ten one-second polls; hold = that reading + 300 s.
    let hold = au.rollback_state().hold_until.unwrap();
    assert_eq!(hold, Timestamp::from_unix_nanos(5 + 10 * 1_000_000_000 + 300 * 1_000_000_000));
    assert_eq!(au.rollback_state().last_rollback, Some(v("3.0.0")));
}

#[test]
fn gate_step_decisions() {
    assert_eq!(gate_step(&Liveness::Alive, Timestamp::from_unix_nanos(100), 0), GateStep::Pass);
    assert_eq!(gate_step(&not_ready(), Timestamp::from_unix_nanos(10), 10), GateStep::Timeout);
    assert_eq!(gate_step(&not_ready(), Timestamp::from_unix_nanos(9), 10), GateStep::Wait);
    let d = GateConfig::default();
    assert_eq!((d.t_gate, d.t_poll, d.t_hold), (30 * NANOS_PER_SEC, NANOS_PER_SEC, 300 * NANOS_PER_SEC));
}

#[test]
fn update_error_messages() {
    assert_eq!(UpdateError::Verify.message(), "업데이트 검증 실패");
    assert_eq!(UpdateError::Io("disk".to_string()).message(), "업데이트 I/O 실패: disk");
}

#[test]
fn settle_follows_the_step_order() {
    assert_eq!(settle(true, Err(UpdateError::Download), false, GateResult::Passed), UpdateDecision::Refuse);
    assert_eq!(
        settle(false, Err(UpdateError::Verify), true, GateResult::Passed),
        UpdateDecision::Fail(UpdateError::Verify)
    );
    assert_eq!(
        settle(false, Ok(()), false, GateResult::Passed),
        UpdateDecision::RollBack { timed_out: false }
    );
    assert_eq!(settle(false, Ok(()), true, GateResult::Passed), UpdateDecision::Commit);
    assert_eq!(
        settle(false, Ok(()), true, GateResult::TimedOut),
        UpdateDecision::RollBack { timed_out: true }
    );
}
