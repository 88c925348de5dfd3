use std::sync::{Arc, Mutex};

use okc_hooks::foundation::core_types::error::{
    ClassifiedError, CodecError, ErrorClass, TransportError, TransportErrorClass,
};
use okc_hooks::foundation::core_types::primitives::{ByteCount, Timestamp};
use okc_hooks::foundation::core_types::sink::{
    CriticalEventSink, CycleId, CycleOutcome, LogFields, LogLevel, LogRecord, Logger, ReadJudgment,
    StatusSink, UploadHistoryRecord,
};
use okc_hooks::foundation::core_types::status::{
    ActiveCondition, ConsentState, Health, HealthReason, Liveness, LivenessSignal, OperationalState,
};
use okc_hooks::observability::critical::{CriticalErrorNotifier, EscalationState};
use okc_hooks::observability::error::HistoryError;
use okc_hooks::observability::history::{
    collect_records, filter_records, frame, split_frames, HistoryQuery,
};
use okc_hooks::observability::logger::{
    event_record, passes_level, rotated_name, rotation_plan, shift_pairs, EmittedLogLine,
    RotationPlan,
};
use okc_hooks::observability::status::StatusService;
use okc_hooks::observability::tray::{NotificationMessage, TrayConfig, TrayIndicator};

#[test]
fn health_flips_only_on_closed_four_set() {
    let svc = StatusService::new();
    svc.raise_condition(ActiveCondition::VaultUnavailable);
    svc.raise_condition(ActiveCondition::ConsentBlocked);
    svc.set_operational(OperationalState::Offline);
    svc.set_dirty(true);
    assert!(matches!(svc.health_check(), Health::Healthy));

    svc.raise_condition(ActiveCondition::AuthFailed);
    assert!(matches!(svc.health_check(), Health::Unhealthy { .. }));
    svc.clear_condition(ActiveCondition::AuthFailed);
    assert!(matches!(svc.health_check(), Health::Healthy));

    svc.set_failure_escalation(true);
    assert!(matches!(svc.health_check(), Health::Unhealthy { .. }));
}

#[test]
fn update_probe_isolated_from_conditions() {
    let svc = StatusService::new();
    svc.raise_condition(ActiveCondition::AuthFailed);
    svc.raise_condition(ActiveCondition::OverLimit);
    assert!(matches!(svc.update_probe(), Liveness::NotReady { .. }));
    svc.set_liveness(LivenessSignal::IdleReached);
    svc.set_liveness(LivenessSignal::CredentialReadable);
    assert!(matches!(svc.update_probe(), Liveness::Alive));
}

#[test]
fn snapshot_derives_offline_and_consent() {
    let svc = StatusService::new();
    assert_eq!(svc.snapshot().consent, ConsentState::Unknown);
    svc.record_sync_success(Timestamp::from_unix_nanos(1));
    assert_eq!(svc.snapshot().consent, ConsentState::Granted);
    svc.raise_condition(ActiveCondition::ConsentBlocked);
    assert_eq!(svc.snapshot().consent, ConsentState::Blocked);
    svc.set_operational(OperationalState::Offline);
    assert!(svc.snapshot().offline);
}

#[test]
fn conditions_are_idempotent_set() {
    let svc = StatusService::new();
    svc.raise_condition(ActiveCondition::AuthFailed);
    svc.raise_condition(ActiveCondition::AuthFailed);
    svc.clear_condition(ActiveCondition::OverLimit);
    assert_eq!(svc.snapshot().conditions, vec![ActiveCondition::AuthFailed]);
}

#[test]
fn health_reasons_and_missing_signals_are_listed_in_order() {
    let svc = StatusService::new();
    svc.raise_condition(ActiveCondition::UpdateRolledBack);
    svc.raise_condition(ActiveCondition::AuthFailed);
    svc.set_failure_escalation(true);
    assert_eq!(
        svc.health_check(),
        Health::Unhealthy {
            reasons: vec![
                HealthReason("condition:AuthFailed".to_string()),
                HealthReason("condition:UpdateRolledBack".to_string()),
                HealthReason("consecutive_failure_escalation".to_string()),
            ]
        }
    );
    assert_eq!(
        svc.update_probe(),
        Liveness::NotReady {
            missing: vec![LivenessSignal::IdleReached, LivenessSignal::CredentialReadable]
        }
    );
    svc.set_liveness(LivenessSignal::CredentialReadable);
    assert_eq!(svc.update_probe(), Liveness::NotReady { missing: vec![LivenessSignal::IdleReached] });
    svc.set_resume_progress(ByteCount::new(3), ByteCount::new(9));
    assert_eq!(svc.snapshot().resume, Some((ByteCount::new(3), ByteCount::new(9))));
    svc.raise_condition(ActiveCondition::VaultUnavailable);
    assert_eq!(
        svc.snapshot().conditions,
        vec![ActiveCondition::AuthFailed, ActiveCondition::VaultUnavailable, ActiveCondition::UpdateRolledBack]
    );
}

#[derive(Default)]
struct RecordingLogger {
    events: Mutex<Vec<String>>,
}

struct SharedLogger(Arc<RecordingLogger>);

impl Logger for SharedLogger {
    fn log(&self, record: LogRecord) {
        self.0.events.lock().unwrap().push(record.event);
    }
    fn event(&self, _level: LogLevel, event: &str, _cycle_id: Option<CycleId>, _fields: LogFields) {
        self.0.events.lock().unwrap().push(event.to_string());
    }
}

fn failure() -> CycleOutcome {
    CycleOutcome::Failure(ClassifiedError { class: ErrorClass::Retryable, code: None, detail: "x".to_string() })
}

fn setup(threshold: u32) -> (Arc<RecordingLogger>, Arc<StatusService>, CriticalErrorNotifier) {
    let logger = Arc::new(RecordingLogger::default());
    let status = Arc::new(StatusService::new());
    let notifier = CriticalErrorNotifier::new(
        Box::new(SharedLogger(logger.clone())),
        status.clone(),
        Arc::new(TrayIndicator::new()),
        threshold,
    );
    (logger, status, notifier)
}

#[test]
fn auth_failure_fans_out_to_log_and_status() {
    let (logger, status, notifier) = setup(3);
    notifier.report_auth_failure(TransportError {
        class: TransportErrorClass::AuthFailed,
        http_status: Some(401),
        detail: "denied".to_string(),
    });
    assert!(logger.events.lock().unwrap().contains(&"critical.auth_failure".to_string()));
    assert!(status.snapshot().conditions.contains(&ActiveCondition::AuthFailed));
    assert!(matches!(status.health_check(), Health::Unhealthy { .. }));
}

#[test]
fn escalation_fires_once_at_threshold_and_resets_on_success() {
    let (logger, status, notifier) = setup(3);
    notifier.report_cycle_result(failure());
    notifier.report_cycle_result(failure());
    assert!(matches!(status.health_check(), Health::Healthy));
    notifier.report_cycle_result(failure());
    assert!(matches!(status.health_check(), Health::Unhealthy { .. }));
    notifier.report_cycle_result(failure());
    let count = logger
        .events
        .lock()
        .unwrap()
        .iter()
        .filter(|e| *e == "critical.consecutive_failures")
        .count();
    assert_eq!(count, 1);
    notifier.report_cycle_result(CycleOutcome::Success);
    assert!(matches!(status.health_check(), Health::Healthy));
}

#[test]
fn escalation_machine_steps() {
    let mut s = EscalationState::new();
    assert!(!s.step(true, 2));
    assert!(s.step(true, 2));
    assert!(!s.step(true, 2));
    assert_eq!(s, EscalationState { consecutive: 3, escalated: true });
    assert!(!s.step(false, 2));
    assert_eq!(s, EscalationState { consecutive: 0, escalated: false });
    let mut z = EscalationState::new();
    assert!(z.step(true, 0));
}

fn rec(ts: i64, bytes: u64, err: Option<&str>) -> UploadHistoryRecord {
    UploadHistoryRecord {
        timestamp: Timestamp::from_unix_nanos(ts),
        bytes_transferred: ByteCount::new(bytes),
        error_detail: err.map(|s| s.to_string()),
    }
}

#[test]
fn frames_round_trip_and_tolerate_truncated_tail() {
    let mut bytes = frame(b"abc");
    assert_eq!(bytes, vec![3, 0, 0, 0, 0, 0, 0, 0, b'a', b'b', b'c']);
    bytes.extend(frame(b""));
    bytes.extend(frame(b"xyz!"));
    assert_eq!(split_frames(&bytes), vec![b"abc".to_vec(), Vec::new(), b"xyz!".to_vec()]);
    let cut = bytes.len() - 2;
    assert_eq!(split_frames(&bytes[..cut]), vec![b"abc".to_vec(), Vec::new()]);
    assert_eq!(split_frames(&bytes[..5]), Vec::<Vec<u8>>::new());
    assert!(split_frames(&[]).is_empty());
}

#[test]
fn decode_failure_of_complete_frame_is_corruption() {
    let ok = collect_records(vec![Ok(rec(1, 10, None)), Ok(rec(2, 20, Some("e")))]).unwrap();
    assert_eq!(ok, vec![rec(1, 10, None), rec(2, 20, Some("e"))]);
    let err = collect_records(vec![
        Ok(rec(1, 10, None)),
        Err(CodecError::Decode("bad".to_string())),
        Err(CodecError::Decode("later".to_string())),
    ])
    .unwrap_err();
    assert_eq!(err, HistoryError::Corrupt("CBOR 디코딩 실패: bad".to_string()));
}

#[test]
fn query_filters_combine_with_and() {
    let all = vec![rec(1, 10, None), rec(2, 20, Some("e")), rec(3, 30, None), rec(4, 0, Some("f"))];
    assert_eq!(filter_records(all.clone(), &HistoryQuery::all()), all);
    let failures = filter_records(all.clone(), &HistoryQuery { since: None, only_failures: Some(true) });
    assert_eq!(failures, vec![rec(2, 20, Some("e")), rec(4, 0, Some("f"))]);
    let since = filter_records(
        all.clone(),
        &HistoryQuery { since: Some(Timestamp::from_unix_nanos(3)), only_failures: None },
    );
    assert_eq!(since, vec![rec(3, 30, None), rec(4, 0, Some("f"))]);
    let both = filter_records(
        all,
        &HistoryQuery { since: Some(Timestamp::from_unix_nanos(3)), only_failures: Some(false) },
    );
    assert_eq!(both, vec![rec(3, 30, None)]);
}

#[test]
fn log_line_rules() {
    let record = event_record(LogLevel::Warn, "e.x", Some(CycleId(7)), LogFields(vec![("k".into(), "v".into())]));
    assert_eq!(record.message, "");
    let line = EmittedLogLine::new(Timestamp::from_unix_nanos(42), &record);
    assert_eq!(line.timestamp, Timestamp::from_unix_nanos(42));
    assert_eq!(line.event, "e.x");
    assert_eq!(line.cycle_id, Some(CycleId(7)));
    assert_eq!(line.fields, LogFields(vec![("k".to_string(), "v".to_string())]));
    assert!(passes_level(LogLevel::Warn, LogLevel::Info));
    assert!(passes_level(LogLevel::Info, LogLevel::Info));
    assert!(!passes_level(LogLevel::Debug, LogLevel::Info));
    assert_eq!(rotated_name("/var/log/w.log", 12), "/var/log/w.log.12");
    assert_eq!(rotation_plan(10, 10, 3), RotationPlan::Keep);
    assert_eq!(rotation_plan(11, 10, 0), RotationPlan::Remove);
    assert_eq!(rotation_plan(11, 10, 3), RotationPlan::Shift);
    assert_eq!(shift_pairs(3), vec![(2, 3), (1, 2)]);
    assert!(shift_pairs(1).is_empty());
    assert!(shift_pairs(0).is_empty());
}

#[test]
fn tray_is_a_no_op() {
    let tray = TrayIndicator::new();
    assert!(tray.start(&TrayConfig { tray_enabled: true }).unwrap().is_none());
    tray.notify(NotificationMessage { title: "t".to_string(), body: "b".to_string() });
    tray.stop();
}
