use okc_hooks::foundation::config::loader::{keep_last_good, resolve_config_path};
use okc_hooks::foundation::config::observer::ObserverRegistry;
use okc_hooks::foundation::config::model::{default_log_level, unloaded_placeholder, WatcherConfig, FOUNDATION_CONFIG_KEYS};
use okc_hooks::foundation::config::validator::{check_fields, first_pass, ConfigError, ConfigIssue};
use okc_hooks::foundation::config::url_validator::{validate_https_url, UrlValidationError};
use okc_hooks::foundation::core_types::error::{CodecError, ErrorClass, TransportErrorClass};
use okc_hooks::foundation::core_types::manifest::{ChangeSet, ManifestEntry};
use okc_hooks::foundation::core_types::path::{PathError, RelativePath};
use okc_hooks::foundation::core_types::primitives::{ByteCount, Sha256Digest, Timestamp};
use okc_hooks::foundation::core_types::token::TokenSecret;

#[test]
fn is_retryable_mapping_is_fixed() {
    assert!(ErrorClass::Retryable.is_retryable());
    assert!(ErrorClass::Backpressure.is_retryable());
    assert!(!ErrorClass::AuthAborted.is_retryable());
    assert!(!ErrorClass::Fatal.is_retryable());

    assert!(!TransportErrorClass::AuthFailed.to_error_class().is_retryable());
    assert!(TransportErrorClass::ServerError.to_error_class().is_retryable());
    assert!(TransportErrorClass::Backpressure.to_error_class().is_retryable());
    assert!(TransportErrorClass::Timeout.to_error_class().is_retryable());
    assert!(TransportErrorClass::Network.to_error_class().is_retryable());
}

#[test]
fn relative_path_rejects_invalid_inputs() {
    assert_eq!(RelativePath::normalize("/etc/passwd"), Err(PathError::Absolute));
    assert_eq!(RelativePath::normalize("C:/win"), Err(PathError::Absolute));
    assert_eq!(RelativePath::normalize("a/../../b"), Err(PathError::Escape));
    assert_eq!(RelativePath::normalize("."), Err(PathError::Empty));
    assert_eq!(RelativePath::normalize(""), Err(PathError::Empty));

    let ok = RelativePath::normalize("a\\b//./c").expect("normalizes");
    assert_eq!(ok.as_str(), "a/b/c");
}

fn entry(path: &str) -> ManifestEntry {
    ManifestEntry {
        relative_path: RelativePath::normalize(path).expect("valid path"),
        raw_sha256: Sha256Digest::from_bytes([0u8; 32]),
        size: ByteCount::new(1),
    }
}

#[test]
fn manifest_entries_sort_canonically_by_path() {
    let mut entries = [entry("b/file"), entry("a/file"), entry("a/aaa")];
    entries.sort();
    let paths: Vec<&str> = entries.iter().map(|e| e.relative_path.as_str()).collect();
    assert_eq!(paths, vec!["a/aaa", "a/file", "b/file"]);
}

#[test]
fn change_set_is_empty_semantics() {
    let empty = ChangeSet { added: Vec::new(), modified: Vec::new(), deleted: Vec::new() };
    assert!(empty.is_empty());

    let non_empty = ChangeSet { added: vec![entry("a/x")], modified: Vec::new(), deleted: Vec::new() };
    assert!(!non_empty.is_empty());
}

#[test]
fn normalize_is_idempotent_on_examples() {
    for raw in ["a\\b//./c", "x/./y//z/", "dir/file.md", "./a"] {
        let once = RelativePath::normalize(raw).expect("valid");
        let twice = RelativePath::normalize(once.as_str()).expect("still valid");
        assert_eq!(once.as_str(), twice.as_str());
    }
    assert_eq!(RelativePath::normalize("x/./y//z/").unwrap().as_str(), "x/y/z");
    assert_eq!(RelativePath::normalize("x/../z"), Err(PathError::Escape));
    assert_eq!(RelativePath::normalize("a/b").unwrap().into_string(), "a/b".to_string());
}

fn typed(vault_path: &str, server_endpoint: &str, notify: u32) -> WatcherConfig {
    WatcherConfig {
        vault_path: vault_path.to_string(),
        server_endpoint: server_endpoint.to_string(),
        token: None,
        secure_store_enabled: false,
        log_level: default_log_level(),
        notify_consecutive_failures: notify,
    }
}

fn refused(r: Result<WatcherConfig, ConfigError>) -> ConfigError {
    match r {
        Err(e) => e,
        Ok(_) => panic!("expected a field violation"),
    }
}

#[test]
fn two_pass_lists_all_unknown_keys() {
    let json = r#"{"vault_path":"/tmp/v","server_endpoint":"https://ex.com","foo":1,"vault_paht":2}"#;
    let err = first_pass(json, &FOUNDATION_CONFIG_KEYS).expect_err("unknown keys are refused");
    let unknown_keys: Vec<&str> = err
        .issues()
        .iter()
        .filter_map(|issue| match issue {
            ConfigIssue::UnknownKey { key, .. } => Some(key.as_str()),
            _ => None,
        })
        .collect();
    assert!(unknown_keys.contains(&"foo"));
    assert!(unknown_keys.contains(&"vault_paht"));
    assert_eq!(err.issues().len(), 2);
}

#[test]
fn two_pass_first_field_violation_after_clean() {
    let relative = r#"{"vault_path":"relative","server_endpoint":"https://ex.com"}"#;
    assert!(first_pass(relative, &FOUNDATION_CONFIG_KEYS).is_ok());
    let err = refused(check_fields(typed("relative", "https://ex.com", 3)));
    assert_eq!(err.issues().len(), 1);
    assert!(matches!(
        &err.issues()[0],
        ConfigIssue::FieldViolation { field, .. } if field == "vault_path"
    ));

    let bad_notify = r#"{"vault_path":"/tmp/v","server_endpoint":"https://ex.com","notify_consecutive_failures":0}"#;
    assert!(first_pass(bad_notify, &FOUNDATION_CONFIG_KEYS).is_ok());
    let err = refused(check_fields(typed("/tmp/v", "https://ex.com", 0)));
    assert!(matches!(
        &err.issues()[0],
        ConfigIssue::FieldViolation { field, .. } if field == "notify_consecutive_failures"
    ));
}

#[test]
fn https_only_enforced() {
    assert!(validate_https_url("https://example.com/api").is_ok());
    assert!(matches!(validate_https_url("http://example.com"), Err(UrlValidationError::NotHttps(_))));
    assert!(matches!(validate_https_url("example.com/path"), Err(UrlValidationError::Malformed(_))));

    let http_json = r#"{"vault_path":"/tmp/v","server_endpoint":"http://ex.com"}"#;
    assert!(first_pass(http_json, &FOUNDATION_CONFIG_KEYS).is_ok());
    let err = refused(check_fields(typed("/tmp/v", "http://ex.com", 3)));
    assert!(matches!(
        &err.issues()[0],
        ConfigIssue::FieldViolation { field, .. } if field == "server_endpoint"
    ));
    match check_fields(typed("C:\\vault", "https://ex.com", 1)) {
        Ok(ok) => assert_eq!(ok.vault_path, "C:\\vault"),
        Err(e) => panic!("expected acceptance, got {e:?}"),
    }
}

#[test]
fn token_text_forms_are_redacted() {
    let token = TokenSecret::new("super-secret-123".to_string());
    assert_eq!(token.debug_text(), "TokenSecret(***)");
    assert_eq!(token.display_text(), "***");
    assert!(!token.debug_text().contains("super-secret-123"));
    assert_eq!(token.expose(), "super-secret-123");
}

#[test]
fn first_pass_lists_every_unknown_key() {
    let known = ["vault_path", "server_endpoint"];
    let json = r#"{"vault_path":"/tmp/v","server_endpoint":"https://ex.com","foo":1,"vault_paht":2}"#;
    let err = first_pass(json, &known).expect_err("unknown keys refused");
    let keys: Vec<String> = err
        .issues()
        .iter()
        .filter_map(|issue| match issue {
            ConfigIssue::UnknownKey { key, .. } => Some(key.clone()),
            _ => None,
        })
        .collect();
    assert_eq!(keys, vec!["foo".to_string(), "vault_paht".to_string()]);
    assert!(first_pass(r#"{"vault_path":"/v"}"#, &known).is_ok());
    assert!(matches!(first_pass("{ invalid", &known).unwrap_err().issues()[0], ConfigIssue::Parse(_)));
}

#[test]
fn config_path_priority_flag_env_default() {
    assert_eq!(resolve_config_path(Some("/a.json"), Some("/b.json"), false, None), "/a.json");
    assert_eq!(resolve_config_path(None, Some("/b.json"), false, None), "/b.json");
    assert_eq!(resolve_config_path(None, Some(""), false, None), "/etc/okc-watcher/config.json");
    assert_eq!(resolve_config_path(None, None, false, None), "/etc/okc-watcher/config.json");
    assert_eq!(
        resolve_config_path(None, None, true, Some("D:\\PD")),
        "D:\\PD\\okc-watcher\\config.json"
    );
    assert_eq!(
        resolve_config_path(None, None, true, None),
        "C:\\ProgramData\\okc-watcher\\config.json"
    );
}

#[test]
fn codec_failures_are_never_retryable() {
    let e = CodecError::Decode("bad".to_string());
    assert_eq!(e.error_class(), ErrorClass::Fatal);
    assert!(!e.error_class().is_retryable());
    assert_eq!(e.message(), "CBOR 디코딩 실패: bad");
    assert_eq!(Timestamp::from_unix_nanos(-5).as_unix_nanos(), -5);
}

#[test]
fn digests_render_as_lowercase_hex() {
    let mut bytes = [0u8; 32];
    bytes[0] = 0xab;
    bytes[1] = 0x05;
    bytes[31] = 0xf0;
    let hex = Sha256Digest::from_bytes(bytes).to_hex();
    assert_eq!(hex.len(), 64);
    assert!(hex.starts_with("ab05"));
    assert!(hex.ends_with("f0"));
    assert_eq!(
        okc_hooks::foundation::core_types::primitives::ManifestDigest::from_bytes([0x1f; 32]).to_hex(),
        "1f".repeat(32)
    );
}

#[test]
fn error_messages() {
    assert_eq!(PathError::Escape.message(), "`..` 세그먼트로 볼트 루트를 이탈할 수 없다");
    let err = ConfigError::new(vec![ConfigIssue::Parse("a".to_string()), ConfigIssue::Parse("b".to_string())]);
    assert_eq!(err.message(), "config 검증 실패: 2 개 이슈");
    assert_eq!(err.report(), "JSON 파싱 실패: a; JSON 파싱 실패: b");
}

struct CountingObserver {
    id: usize,
    seen: std::sync::Arc<std::sync::Mutex<Vec<usize>>>,
}

impl okc_hooks::foundation::core_types::sink::ConfigReloadObserver for CountingObserver {
    fn on_config_reload(&self) {
        self.seen.lock().unwrap().push(self.id);
    }
}

#[test]
fn observer_registry_keeps_registration_order() {
    let seen = std::sync::Arc::new(std::sync::Mutex::new(Vec::new()));
    let mut registry = ObserverRegistry::new();
    assert!(registry.is_empty());
    for id in 0..3 {
        registry.subscribe(Box::new(CountingObserver { id, seen: seen.clone() }));
    }
    assert_eq!(registry.len(), 3);
    for observer in registry.observers() {
        observer.on_config_reload();
    }
    assert_eq!(*seen.lock().unwrap(), vec![0, 1, 2]);
}

#[test]
fn reload_keeps_last_good_when_the_new_load_is_refused() {
    let refused = ConfigError::single(ConfigIssue::Discovery("gone".to_string()));
    let (kept, result) = keep_last_good(Some(1u8), Err(refused.clone()));
    assert_eq!(kept, Some(1));
    assert_eq!(result, Err(refused));
    let (swapped, result) = keep_last_good(Some(1u8), Ok(Some(2u8)));
    assert_eq!(swapped, Some(2));
    assert_eq!(result, Ok(()));
}

#[test]
fn unloaded_placeholder_passes_no_validation() {
    let c = unloaded_placeholder();
    assert!(c.vault_path.is_empty() && c.server_endpoint.is_empty());
    assert!(c.token.is_none() && !c.secure_store_enabled);
    assert_eq!(c.notify_consecutive_failures, 3);
    assert!(check_fields(c).is_err());
}
