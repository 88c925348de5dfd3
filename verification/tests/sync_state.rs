use okc_hooks::foundation::core_types::error::{TransportError, TransportErrorClass};
use okc_hooks::foundation::core_types::manifest::{Manifest, ManifestEntry};
use okc_hooks::foundation::core_types::path::RelativePath;
use okc_hooks::foundation::core_types::primitives::{ByteCount, ManifestDigest, Sha256Digest};
use okc_hooks::sync_state::retry::{classify, JitterMode, RetryClass, RetryState, SplitMix64};
use okc_hooks::sync_state::store::{
    recover_state, resolve_state_path, tmp_path_for, LoadedState, PersistedState, RecoveryAction,
    ResumeOffsetMap, StateConfig,
};

fn err(class: TransportErrorClass) -> TransportError {
    TransportError { class, http_status: None, detail: String::new() }
}

#[test]
fn classify_total_mapping_no_permanent() {
    let cases = [
        (TransportErrorClass::AuthFailed, RetryClass::AuthFailed),
        (TransportErrorClass::ServerError, RetryClass::Transient),
        (TransportErrorClass::Backpressure, RetryClass::Backpressure),
        (TransportErrorClass::Timeout, RetryClass::Offline),
        (TransportErrorClass::Network, RetryClass::Offline),
    ];
    for (class, expected) in cases {
        let got = classify(&err(class));
        assert_eq!(got, expected);
        assert_ne!(got, RetryClass::Permanent);
    }
}

#[test]
fn escalation_only_transient_at_threshold() {
    let mut s = RetryState::new(3, 42);
    let base = 1_000_000_000;
    assert!(!s.on_failure(RetryClass::Transient, base, JitterMode::Full).escalate);
    assert!(!s.on_failure(RetryClass::Transient, base, JitterMode::Full).escalate);
    assert!(s.on_failure(RetryClass::Transient, base, JitterMode::Full).escalate);
    assert_eq!(s.consecutive_failures(), 3);
}

#[test]
fn offline_and_backpressure_never_escalate() {
    let mut s = RetryState::new(1, 7);
    for _ in 0..5 {
        let d = s.on_failure(RetryClass::Offline, 10, JitterMode::Full);
        assert!(d.is_offline);
        assert!(!d.escalate);
        assert!(d.retry_after.unwrap() <= 10);
    }
    let bp = s.on_failure(RetryClass::Backpressure, 10, JitterMode::Full);
    assert!(!bp.escalate);
    assert!(!bp.is_offline);
}

#[test]
fn auth_failed_leaves_counter_unchanged_and_no_retry() {
    let mut s = RetryState::new(3, 1);
    s.on_failure(RetryClass::Transient, 5, JitterMode::Off);
    s.on_failure(RetryClass::Transient, 5, JitterMode::Off);
    assert_eq!(s.consecutive_failures(), 2);
    let before = s;
    let auth = s.on_failure(classify(&err(TransportErrorClass::AuthFailed)), 5, JitterMode::Full);
    assert_eq!(auth.retry_after, None);
    assert!(!auth.is_offline);
    assert!(!auth.escalate);
    assert_eq!(s, before);
    s.on_success();
    assert_eq!((s.consecutive_failures(), s.attempt()), (0, 0));
}

#[test]
fn jitter_is_deterministic_and_bounded() {
    let mut g = SplitMix64::new(0);
    assert_eq!(g.next_u64(), 0xE220_A839_7B1D_CDAF);
    let mut a = RetryState::new(3, 99);
    let mut b = RetryState::new(3, 99);
    for base in [0u64, 1, 7, 1_000, u64::MAX] {
        let da = a.on_failure(RetryClass::Transient, base, JitterMode::Full).retry_after.unwrap();
        let db = b.on_failure(RetryClass::Transient, base, JitterMode::Full).retry_after.unwrap();
        assert_eq!(da, db);
        assert!(da <= base);
    }
    let mut c = RetryState::new(3, 99);
    assert_eq!(c.on_failure(RetryClass::Transient, 123, JitterMode::Off).retry_after, Some(123));
}

fn make_manifest(seed: u8) -> Manifest {
    Manifest {
        entries: vec![ManifestEntry {
            relative_path: RelativePath::normalize("dir/file.md").expect("valid"),
            raw_sha256: Sha256Digest::from_bytes([seed; 32]),
            size: ByteCount::new(u64::from(seed) * 100),
        }],
        manifest_digest: ManifestDigest::from_bytes([seed; 32]),
    }
}

#[test]
fn commit_clears_dirty_and_offsets_in_one_transition() {
    let mut s = PersistedState::default();
    let blob = Sha256Digest::from_bytes([9; 32]);
    s.mark_dirty();
    s.persist_resume_offset(blob, ByteCount::new(42));
    assert!(s.is_dirty());
    assert_eq!(s.resume_offset(&blob), Some(ByteCount::new(42)));
    s.persist_resume_offset(blob, ByteCount::new(50));
    assert_eq!(s.resume_offset(&blob), Some(ByteCount::new(50)));
    assert_eq!(s.resume_offsets.len(), 1);
    s.commit_manifest(make_manifest(7));
    assert!(!s.is_dirty());
    assert!(s.resume_offset(&blob).is_none());
    assert_eq!(s.last_committed_manifest(), Some(&make_manifest(7)));
    for seed in 1u8..=4 {
        s.commit_manifest(make_manifest(seed));
    }
    assert_eq!(s.last_committed_manifest(), Some(&make_manifest(4)));
}

#[test]
fn resume_offsets_keep_one_entry_per_blob() {
    let a = Sha256Digest::from_bytes([1; 32]);
    let b = Sha256Digest::from_bytes([2; 32]);
    let mut m = ResumeOffsetMap::new();
    assert!(m.is_empty());
    m.insert(a, ByteCount::new(1));
    m.insert(b, ByteCount::new(2));
    m.insert(a, ByteCount::new(3));
    assert_eq!(m.len(), 2);
    assert_eq!(m.get(&a), Some(ByteCount::new(3)));
    let copy = ResumeOffsetMap::from_entries(m.to_vec());
    assert_eq!(copy.get(&b), Some(ByteCount::new(2)));
    m.clear();
    assert!(m.is_empty());
}

#[test]
fn recovery_rules() {
    let (s, a) = recover_state(LoadedState::Missing);
    assert_eq!(a, RecoveryAction::Fresh);
    assert!(!s.is_dirty() && s.last_committed_manifest().is_none());
    let (s, a) = recover_state(LoadedState::Undecodable);
    assert_eq!(a, RecoveryAction::RewriteCorrupt);
    assert!(s.is_dirty() && s.last_committed_manifest().is_none());
    let mut good = PersistedState::default();
    good.commit_manifest(make_manifest(3));
    let (s, a) = recover_state(LoadedState::Decoded(good.clone()));
    assert_eq!(a, RecoveryAction::AdoptLastGood);
    assert_eq!(s.last_committed_manifest(), Some(&make_manifest(3)));
}

#[test]
fn state_paths() {
    assert_eq!(tmp_path_for("/s/sync-state.cbor"), "/s/sync-state.cbor.tmp");
    let explicit = StateConfig { state_path: Some("/x/y.cbor".to_string()) };
    assert_eq!(resolve_state_path(&explicit, false, None, None, None, "/tmp"), "/x/y.cbor");
    let dflt = StateConfig::default();
    assert_eq!(
        resolve_state_path(&dflt, false, None, Some("/xdg"), Some("/home/u"), "/tmp"),
        "/xdg/okc-watcher/sync-state.cbor"
    );
    assert_eq!(
        resolve_state_path(&dflt, false, None, None, Some("/home/u"), "/tmp"),
        "/home/u/.local/state/okc-watcher/sync-state.cbor"
    );
    assert_eq!(resolve_state_path(&dflt, false, None, None, None, "/tmp/"), "/tmp/okc-watcher/sync-state.cbor");
    assert_eq!(
        resolve_state_path(&dflt, true, Some("C:\\L"), None, None, "C:\\T"),
        "C:\\L\\okc-watcher\\sync-state.cbor"
    );
}
