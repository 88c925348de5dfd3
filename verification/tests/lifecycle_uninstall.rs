use std::collections::HashSet;
use std::sync::{Arc, Mutex};

use okc_hooks::lifecycle::service::{
    ServiceController, ServiceError, ServiceManager, ServiceRegistration, ServiceSpec,
};
use okc_hooks::lifecycle::uninstall::{
    is_descendant, is_descendant_on, Artifact, ArtifactKind, ArtifactSet, FileSystem, FsError, PurgeOutcome,
    PurgeUnsupported, SkipReason, SkipTarget, TokenPurgePort, UninstallError, UninstallOptions,
    Uninstaller, UnsupportedTokenPurge,
};

struct NoService;

impl ServiceController for NoService {
    fn register(&self, _spec: &ServiceSpec) -> Result<(), ServiceError> {
        Ok(())
    }
    fn deregister(&self) -> Result<(), ServiceError> {
        Ok(())
    }
    fn enable_autostart(&self) -> Result<(), ServiceError> {
        Ok(())
    }
    fn start(&self) -> Result<(), ServiceError> {
        Err(ServiceError::NotInstalled)
    }
    fn stop(&self) -> Result<(), ServiceError> {
        Err(ServiceError::NotInstalled)
    }
    fn query(&self) -> Result<ServiceRegistration, ServiceError> {
        Err(ServiceError::NotInstalled)
    }
}

#[derive(Debug, Default)]
struct FsInner {
    existing: HashSet<String>,
    denied: HashSet<String>,
}

#[derive(Debug, Clone, Default)]
struct FakeFileSystem {
    inner: Arc<Mutex<FsInner>>,
}

impl FakeFileSystem {
    fn new() -> Self {
        FakeFileSystem::default()
    }
    fn add_existing(&self, path: &str) {
        self.inner.lock().unwrap().existing.insert(path.to_string());
    }
    fn deny_permission(&self, path: &str) {
        self.inner.lock().unwrap().denied.insert(path.to_string());
    }
    fn contains(&self, path: &str) -> bool {
        self.inner.lock().unwrap().existing.contains(path)
    }
}

impl FileSystem for FakeFileSystem {
    fn remove(&self, path: &str) -> Result<bool, FsError> {
        let mut inner = self.inner.lock().unwrap();
        if inner.denied.contains(path) {
            return Err(FsError::PermissionDenied);
        }
        Ok(inner.existing.remove(path))
    }
}

fn abs(p: &str) -> String {
    format!("/{p}")
}

fn artifact(kind: ArtifactKind, p: &str) -> Artifact {
    Artifact { kind, path: abs(p) }
}

fn uninstaller(fs: FakeFileSystem) -> Uninstaller {
    Uninstaller::new(
        ServiceManager::new(Box::new(NoService)),
        Box::new(fs),
        Box::new(UnsupportedTokenPurge),
    )
}

#[test]
fn is_descendant_detects_nested_and_equal() {
    assert!(is_descendant(&abs("vault/sub/f"), &abs("vault")));
    assert!(is_descendant(&abs("vault"), &abs("vault")));
    assert!(!is_descendant(&abs("data/f"), &abs("vault")));
    assert!(!is_descendant(&abs("vault/../data/f"), &abs("vault")));
}

#[test]
fn removes_present_and_absent_artifacts_idempotently() {
    let fs = FakeFileSystem::new();
    fs.add_existing(&abs("data/history"));
    let un = uninstaller(fs);
    let set = ArtifactSet(vec![
        artifact(ArtifactKind::UploadHistory, "data/history"),
        artifact(ArtifactKind::SyncState, "data/state"),
    ]);
    let report = un.uninstall(&UninstallOptions::default(), set, &abs("vault")).unwrap();
    assert_eq!(report.removed.len(), 2);
    assert!(report.skipped.is_empty());
}

#[test]
fn logs_and_config_token_gated_by_options() {
    let fs = FakeFileSystem::new();
    fs.add_existing(&abs("data/log"));
    fs.add_existing(&abs("data/config"));
    let un = uninstaller(fs);
    let set = ArtifactSet(vec![
        artifact(ArtifactKind::Log, "data/log"),
        artifact(ArtifactKind::ConfigToken, "data/config"),
    ]);
    let report = un.uninstall(&UninstallOptions::default(), set, &abs("vault")).unwrap();
    assert!(report.removed.is_empty());
    assert!(report.skipped.is_empty());
}

#[test]
fn purge_token_reports_env_and_secure_store_skips() {
    let fs = FakeFileSystem::new();
    fs.add_existing(&abs("data/config"));
    let un = uninstaller(fs);
    let opts = UninstallOptions { purge_token: true, purge_logs: false, deregister_service: true };
    let set = ArtifactSet(vec![artifact(ArtifactKind::ConfigToken, "data/config")]);
    let report = un.uninstall(&opts, set, &abs("vault")).unwrap();
    assert_eq!(report.removed.len(), 1);
    assert!(report
        .skipped
        .iter()
        .any(|(t, r)| matches!(t, SkipTarget::EnvToken) && *r == SkipReason::EnvTokenExternal));
    assert!(report.skipped.iter().any(|(t, r)| matches!(t, SkipTarget::SecureStoreToken)
        && *r == SkipReason::SecureStoreRemovalUnsupported));
}

#[test]
fn vault_paths_are_never_deleted() {
    let fs = FakeFileSystem::new();
    fs.add_existing(&abs("vault/original"));
    let un = uninstaller(fs.clone());
    let set = ArtifactSet(vec![artifact(ArtifactKind::SyncState, "vault/original")]);
    let report = un.uninstall(&UninstallOptions::default(), set, &abs("vault")).unwrap();
    assert!(report.removed.is_empty());
    assert!(report.skipped.iter().any(|(_, r)| *r == SkipReason::VaultProtected));
    assert!(fs.contains(&abs("vault/original")));
}

#[test]
fn permission_failure_yields_partial_failure() {
    let fs = FakeFileSystem::new();
    fs.add_existing(&abs("data/history"));
    fs.deny_permission(&abs("data/history"));
    let un = uninstaller(fs);
    let set = ArtifactSet(vec![artifact(ArtifactKind::UploadHistory, "data/history")]);
    let err = un.uninstall(&UninstallOptions::default(), set, &abs("vault")).unwrap_err();
    match err {
        UninstallError::PartialFailure(report) => {
            assert!(report.skipped.iter().any(|(_, r)| *r == SkipReason::PermissionDenied));
        }
        other => panic!("expected PartialFailure, got {other:?}"),
    }
}

struct PurgingPort;

impl TokenPurgePort for PurgingPort {
    fn purge_secure_store_token(&self) -> Result<PurgeOutcome, PurgeUnsupported> {
        Ok(PurgeOutcome::Removed)
    }
}

#[test]
fn successful_secure_store_purge_is_not_reported() {
    let un = Uninstaller::new(
        ServiceManager::new(Box::new(NoService)),
        Box::new(FakeFileSystem::new()),
        Box::new(PurgingPort),
    );
    let opts = UninstallOptions { purge_token: true, purge_logs: true, deregister_service: false };
    let report = un.uninstall(&opts, ArtifactSet(Vec::new()), &abs("vault")).unwrap();
    assert_eq!(report.skipped, vec![(SkipTarget::EnvToken, SkipReason::EnvTokenExternal)]);
}

#[test]
fn descendant_check_is_lexical() {
    assert!(is_descendant("/vault/./sub", "/vault"));
    assert!(is_descendant("/vault/a/../b", "/vault/"));
    assert!(!is_descendant("/vaultx/a", "/vault"));
    assert!(!is_descendant("/", "/vault"));
    assert!(is_descendant("/vault", "/"));
    assert!(is_descendant_on("C:\\vault\\notes", "C:\\vault", true));
    assert!(is_descendant_on("C:/vault/notes", "C:\\vault\\", true));
    assert!(!is_descendant_on("C:\\data\\state", "C:\\vault", true));
    assert!(!is_descendant_on("C:\\vault\\notes", "C:\\vault", false));
    assert!(is_descendant_on("/vault/a\\b", "/vault", false));
    assert!(is_descendant_on("c:\\vault\\x", "C:\\vault", true));
    assert!(!is_descendant_on("C:\\..\\vault", "C:\\vault", true));
    assert!(!is_descendant_on("D:\\vault\\x", "C:\\vault", true));
    assert!(!is_descendant_on("C:..\\vault", "vault", true));
}
