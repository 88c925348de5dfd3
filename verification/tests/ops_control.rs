use std::sync::atomic::{AtomicUsize, Ordering};
use std::sync::Mutex;

use okc_hooks::foundation::core_types::primitives::Timestamp;
use okc_hooks::foundation::core_types::sink::UploadHistoryRecord;
use okc_hooks::foundation::core_types::status::{
    ConsentState, Health, HealthReason, OperationalState, StatusSnapshot,
};
use okc_hooks::lifecycle::uninstall::{ArtifactKind, UninstallOptions};
use okc_hooks::ops_control::cli::{
    assemble_artifact_set, daemon_exit_code, map_health, parse, parse_i64, render_daemon, render_response, render_service, route,
    to_control_op, CliArgs, Command, Route,
};
use okc_hooks::ops_control::control_plane::{dispatch, handle_request, ControlHandlers};
use okc_hooks::ops_control::ipc::{
    frame_header_len, read_frame_from, write_frame_to, FrameReader, IpcError, MAX_FRAME_BYTES,
};
use okc_hooks::ops_control::protocol::{
    ConsentOp, ConsentView, ControlError, ControlOp, ControlRequest, ControlResponse,
    ControlResult, HistoryFilter, StopMode, PROTO_VERSION,
};
use okc_hooks::ops_control::run_state::{
    reflected_operational, RunMode, RunState, RunStateError,
};

#[test]
fn frame_roundtrip_preserves_payload() {
    let payload = b"hello-frame-payload".to_vec();
    let mut buf = Vec::new();
    write_frame_to(&mut buf, &payload).unwrap();
    let mut cursor = FrameReader::new(buf);
    let restored = read_frame_from(&mut cursor).unwrap();
    assert_eq!(restored, payload);
}

#[test]
fn truncated_frame_is_protocol_error_not_panic() {
    let mut buf = Vec::new();
    write_frame_to(&mut buf, b"payload").unwrap();
    buf.truncate(10);
    let mut cursor = FrameReader::new(buf);
    assert_eq!(read_frame_from(&mut cursor), Err(IpcError::Protocol));
}

#[test]
fn health_exit_code_mapping_is_exhaustive() {
    let healthy = Ok(ControlResponse { proto_version: PROTO_VERSION, result: ControlResult::Health(Health::Healthy) });
    assert_eq!(map_health(&healthy).exit_code.0, 0);

    let unhealthy = Ok(ControlResponse {
        proto_version: PROTO_VERSION,
        result: ControlResult::Health(Health::Unhealthy { reasons: vec![HealthReason("auth".to_string())] }),
    });
    assert_eq!(map_health(&unhealthy).exit_code.0, 1);

    let unreachable: Result<ControlResponse, IpcError> = Err(IpcError::Connect);
    assert_eq!(map_health(&unreachable).exit_code.0, 2);
}

#[test]
fn framing_is_big_endian_and_bounded() {
    let mut buf = vec![9u8];
    write_frame_to(&mut buf, &[1, 2]).unwrap();
    assert_eq!(buf, vec![9, 0, 0, 0, 0, 0, 0, 0, 2, 1, 2]);
    assert_eq!(frame_header_len(&[0, 0, 0, 0, 0, 0x80, 0, 0]), Ok(MAX_FRAME_BYTES));
    assert_eq!(frame_header_len(&[0, 0, 0, 0, 0, 0x80, 0, 1]), Err(IpcError::Protocol));
    let mut two = Vec::new();
    write_frame_to(&mut two, b"ab").unwrap();
    write_frame_to(&mut two, b"c").unwrap();
    let mut r = FrameReader::new(two);
    assert_eq!(read_frame_from(&mut r).unwrap(), b"ab".to_vec());
    assert_eq!(r.position(), 10);
    assert_eq!(read_frame_from(&mut r).unwrap(), b"c".to_vec());
    assert_eq!(read_frame_from(&mut r), Err(IpcError::Protocol));
    let mut oversized = FrameReader::new(vec![0, 0, 0, 0, 1, 0, 0, 0]);
    assert_eq!(read_frame_from(&mut oversized), Err(IpcError::Protocol));
    assert_eq!(oversized.position(), 8);
    assert_eq!(IpcError::Io("x".to_string()).message(), "IPC I/O 실패: x");
}

struct RecordingHandlers {
    total: AtomicUsize,
    names: Mutex<Vec<String>>,
}

impl RecordingHandlers {
    fn new() -> Self {
        RecordingHandlers { total: AtomicUsize::new(0), names: Mutex::new(Vec::new()) }
    }
    fn note(&self, name: &str) {
        self.total.fetch_add(1, Ordering::SeqCst);
        self.names.lock().unwrap().push(name.to_string());
    }
    fn total_calls(&self) -> usize {
        self.total.load(Ordering::SeqCst)
    }
    fn was_called(&self, name: &str) -> bool {
        self.names.lock().unwrap().iter().any(|n| n == name)
    }
}

fn empty_snapshot() -> StatusSnapshot {
    StatusSnapshot {
        operational: OperationalState::Idle,
        conditions: Vec::new(),
        last_success: None,
        dirty: false,
        resume: None,
        consent: ConsentState::Unknown,
        offline: false,
    }
}

impl ControlHandlers for RecordingHandlers {
    fn status(&self) -> StatusSnapshot {
        self.note("status");
        empty_snapshot()
    }
    fn health(&self) -> Health {
        self.note("health");
        Health::Healthy
    }
    fn history(&self, _filter: HistoryFilter) -> Result<Vec<UploadHistoryRecord>, ControlError> {
        self.note("history");
        Err(ControlError::HistoryUnavailable("gone".to_string()))
    }
    fn pause(&self) -> Result<(), ControlError> {
        self.note("pause");
        Ok(())
    }
    fn resume(&self) -> Result<(), ControlError> {
        self.note("resume");
        Err(ControlError::RunState("disk".to_string()))
    }
    fn sync_now(&self) {
        self.note("sync_now");
    }
    fn stop(&self, _mode: StopMode) {
        self.note("stop");
    }
    fn consent_view(&self) -> ConsentView {
        self.note("consent_view");
        ConsentView { consent: ConsentState::Unknown, acknowledged: false }
    }
    fn consent_grant(&self) -> Result<(), ControlError> {
        self.note("consent_grant");
        Ok(())
    }
    fn consent_withdraw(&self) -> Result<(), ControlError> {
        self.note("consent_withdraw");
        Ok(())
    }
    fn consent_acknowledge(&self) -> Result<(), ControlError> {
        self.note("consent_acknowledge");
        Ok(())
    }
    fn reload(&self) -> Result<(), ControlError> {
        self.note("reload");
        Err(ControlError::ReloadFailed("not loaded".to_string()))
    }
}

#[test]
fn version_mismatch_blocks_dispatch_before_side_effects() {
    let handlers = RecordingHandlers::new();
    let request = ControlRequest { proto_version: PROTO_VERSION + 7, op: ControlOp::Pause };
    let response = handle_request(&handlers, request);
    assert_eq!(response.proto_version, PROTO_VERSION);
    assert_eq!(
        response.result,
        ControlResult::Error(ControlError::VersionMismatch { server: PROTO_VERSION, client: PROTO_VERSION + 7 })
    );
    assert_eq!(handlers.total_calls(), 0);
}

#[test]
fn dispatch_table_routes_each_op() {
    let handlers = RecordingHandlers::new();
    let ok = handle_request(&handlers, ControlRequest { proto_version: PROTO_VERSION, op: ControlOp::Pause });
    assert_eq!(ok.result, ControlResult::Ack);
    assert!(handlers.was_called("pause"));
    assert_eq!(dispatch(&handlers, ControlOp::Resume), ControlResult::Error(ControlError::RunState("disk".to_string())));
    assert_eq!(
        dispatch(&handlers, ControlOp::History(HistoryFilter::default())),
        ControlResult::Error(ControlError::HistoryUnavailable("gone".to_string()))
    );
    assert_eq!(dispatch(&handlers, ControlOp::Stop(StopMode::Immediate)), ControlResult::Ack);
    assert_eq!(dispatch(&handlers, ControlOp::SyncNow), ControlResult::Ack);
    assert_eq!(dispatch(&handlers, ControlOp::Health), ControlResult::Health(Health::Healthy));
    assert_eq!(dispatch(&handlers, ControlOp::Status), ControlResult::Status(empty_snapshot()));
    assert!(matches!(dispatch(&handlers, ControlOp::Reload), ControlResult::Error(ControlError::ReloadFailed(_))));
    assert_eq!(
        dispatch(&handlers, ControlOp::Consent(ConsentOp::View)),
        ControlResult::Consent(ConsentView { consent: ConsentState::Unknown, acknowledged: false })
    );
    assert_eq!(dispatch(&handlers, ControlOp::Consent(ConsentOp::Grant)), ControlResult::Ack);
    assert_eq!(handlers.total_calls(), 10);
}

fn args(v: &[&str]) -> Vec<String> {
    v.iter().map(|s| s.to_string()).collect()
}

#[test]
fn parse_subcommands_and_flags() {
    assert_eq!(parse(&args(&["status", "--json"])), Ok(CliArgs { command: Command::Status, json: true }));
    assert_eq!(
        parse(&args(&["stop", "--immediate"])),
        Ok(CliArgs { command: Command::Stop(StopMode::Immediate), json: false })
    );
    assert_eq!(
        parse(&args(&["history", "--since", "-42", "--status", "failed"])),
        Ok(CliArgs {
            command: Command::History(HistoryFilter {
                since: Some(Timestamp::from_unix_nanos(-42)),
                only_failures: Some(true)
            }),
            json: false
        })
    );
    assert_eq!(
        parse(&args(&["consent", "grant"])),
        Ok(CliArgs { command: Command::Consent(ConsentOp::Grant), json: false })
    );
    assert_eq!(
        parse(&args(&["--purge-logs", "uninstall", "--keep-service"])),
        Ok(CliArgs {
            command: Command::Uninstall(UninstallOptions {
                purge_token: false,
                purge_logs: true,
                deregister_service: false
            }),
            json: false
        })
    );
}

#[test]
fn parse_errors_are_usage_texts() {
    let tail = "\n사용법: watcher <status|health|pause|resume|sync-now|stop|history|consent|reload|install|uninstall> [--json] [--immediate] [--since <nanos>] [--status <failed|success>] [--purge-token] [--purge-logs] [--keep-service]";
    assert_eq!(parse(&args(&[])), Err(format!("서브커맨드가 필요합니다{tail}")));
    assert_eq!(parse(&args(&["bogus"])), Err(format!("알 수 없는 서브커맨드: bogus{tail}")));
    assert_eq!(parse(&args(&["history", "--since"])), Err(format!("--since 는 값(unix nanos)이 필요합니다{tail}")));
    assert_eq!(parse(&args(&["history", "--since", "12x"])), Err(format!("--since 는 정수(unix nanos)여야 합니다{tail}")));
    assert_eq!(parse(&args(&["history", "--status", "maybe"])), Err(format!("--status 값이 잘못됨: maybe{tail}")));
    assert_eq!(parse(&args(&["consent"])), Err(format!("consent <view|grant|withdraw|acknowledge>{tail}")));
    assert_eq!(parse(&args(&["consent", "nope"])), Err(format!("알 수 없는 consent 동작: nope{tail}")));
}

#[test]
fn integers_parse_as_std_does() {
    for s in ["0", "-0", "+7", "-9223372036854775808", "9223372036854775807", "", "-", "+", " 1", "1 ", "9223372036854775808", "-9223372036854775809", "00012", "1_0"] {
        assert_eq!(parse_i64(s), s.parse::<i64>().ok(), "input {s:?}");
    }
}

#[test]
fn routing_is_a_partition() {
    assert_eq!(route(&Command::Install), Route::Install);
    let opts = UninstallOptions::default();
    assert_eq!(route(&Command::Uninstall(opts)), Route::Uninstall(opts));
    assert_eq!(route(&Command::Status), Route::Daemon(ControlOp::Status));
    assert_eq!(to_control_op(&Command::Install), None);
    assert_eq!(to_control_op(&Command::Reload), Some(ControlOp::Reload));
}

#[test]
fn exit_codes_and_outputs() {
    let unhealthy = Ok(ControlResponse {
        proto_version: PROTO_VERSION,
        result: ControlResult::Health(Health::Unhealthy {
            reasons: vec![HealthReason("a".to_string()), HealthReason("b".to_string())],
        }),
    });
    assert_eq!(map_health(&unhealthy).output, "unhealthy: a, b");
    let err: Result<ControlResponse, IpcError> = Err(IpcError::Protocol);
    let r = map_health(&err);
    assert_eq!((r.output.as_str(), r.exit_code.0), ("전송 오류: 프로토콜 위반(프레이밍/디코드)", 2));
    let domain = Ok(ControlResponse {
        proto_version: PROTO_VERSION,
        result: ControlResult::Error(ControlError::ReloadFailed("x".to_string())),
    });
    assert_eq!(map_health(&domain).output, "오류: ReloadFailed(\"x\")");
    let unexpected = Ok(ControlResponse { proto_version: PROTO_VERSION, result: ControlResult::Ack });
    let r = map_health(&unexpected);
    assert_eq!((r.output.as_str(), r.exit_code.0), ("예상치 못한 응답: Ack", 1));
    assert_eq!(daemon_exit_code(&domain).0, 1);
    assert_eq!(daemon_exit_code(&Ok(ControlResponse { proto_version: 1, result: ControlResult::Ack })).0, 0);
    assert_eq!(daemon_exit_code(&Err(IpcError::Connect)).0, 2);
    let ok = render_service(Ok("installed".to_string()));
    assert_eq!((ok.output.as_str(), ok.exit_code.0), ("installed", 0));
    let bad = render_service(Err("denied".to_string()));
    assert_eq!((bad.output.as_str(), bad.exit_code.0), ("denied", 1));
}

#[test]
fn artifact_set_under_data_dir() {
    let set = assemble_artifact_set("/var/okc");
    let paths: Vec<(ArtifactKind, String)> = set.0.iter().map(|a| (a.kind, a.path.clone())).collect();
    assert_eq!(
        paths,
        vec![
            (ArtifactKind::UploadHistory, "/var/okc/history.cbor".to_string()),
            (ArtifactKind::SyncState, "/var/okc/sync-state.cbor".to_string()),
            (ArtifactKind::Log, "/var/okc/watcher.log".to_string()),
            (ArtifactKind::ConfigToken, "/var/okc/config.json".to_string()),
        ]
    );
}

#[test]
fn run_state_transitions() {
    let mut s = RunState::recovered(None);
    assert_eq!(s.mode, RunMode::Running);
    assert!(s.pause());
    assert!(!s.pause());
    assert_eq!(s.persisted().paused, true);
    s.request_sync_now();
    s.request_stop(StopMode::Graceful);
    let restarted = RunState::recovered(Some(s.persisted().paused));
    assert_eq!(restarted.mode, RunMode::Paused);
    assert!(!restarted.sync_requested);
    assert_eq!(restarted.stop_requested, None);
    assert!(s.resume());
    assert!(!s.resume());
    assert_eq!(reflected_operational(RunMode::Paused), OperationalState::Paused);
    assert_eq!(reflected_operational(RunMode::Running), OperationalState::Idle);
    assert_eq!(RunState::recovered(Some(false)).mode, RunMode::Running);
    assert_eq!(RunStateError::Persist.message(), "run-state 원자 지속 실패");
}

fn response_of(result: ControlResult) -> Result<ControlResponse, IpcError> {
    Ok(ControlResponse { proto_version: PROTO_VERSION, result })
}

#[test]
fn render_daemon_texts_and_exit_codes() {
    let ack = render_daemon(false, &response_of(ControlResult::Ack), None);
    assert_eq!((ack.output.as_str(), ack.exit_code.0), ("OK", 0));

    let err = ControlError::ReloadFailed("bad".to_string());
    let rendered = render_daemon(false, &response_of(ControlResult::Error(err.clone())), None);
    assert_eq!(rendered.output, format!("오류: {:?}", err));
    assert_eq!(rendered.exit_code.0, 1);

    let snapshot = empty_snapshot();
    let human = render_daemon(false, &response_of(ControlResult::Status(snapshot.clone())), None);
    assert_eq!(human.output, format!("{:?}", snapshot));
    let as_json = render_daemon(
        true,
        &response_of(ControlResult::Status(snapshot.clone())),
        Some("{\"x\":1}".to_string()),
    );
    assert_eq!(as_json.output, "{\"x\":1}");
    assert_eq!(as_json.exit_code.0, 0);
    let no_json = render_daemon(true, &response_of(ControlResult::Status(snapshot.clone())), None);
    assert_eq!(no_json.output, format!("{:?}", snapshot));

    let health = render_daemon(false, &response_of(ControlResult::Health(Health::Healthy)), None);
    assert_eq!(health.output, "Healthy");

    let down = render_daemon(false, &Err(IpcError::Connect), None);
    assert_eq!((down.output.as_str(), down.exit_code.0), ("데몬에 도달할 수 없습니다", 2));
    let broken = render_daemon(false, &Err(IpcError::Protocol), None);
    assert_eq!(broken.output, "전송 오류: 프로토콜 위반(프레이밍/디코드)");
    assert_eq!(broken.exit_code.0, 2);
}

#[test]
fn render_response_picks_the_health_mapping_for_health_only() {
    let healthy = response_of(ControlResult::Health(Health::Healthy));
    let as_health = render_response(&Command::Health, false, &healthy, None);
    assert_eq!((as_health.output.as_str(), as_health.exit_code.0), ("healthy", 0));
    let as_status = render_response(&Command::Status, false, &healthy, None);
    assert_eq!((as_status.output.as_str(), as_status.exit_code.0), ("Healthy", 0));
}
