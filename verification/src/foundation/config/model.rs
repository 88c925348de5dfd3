//! The six core configuration fields and the lock-free snapshot wrapper.

use std::sync::Arc;

use vstd::prelude::*;

use crate::foundation::core_types::sink::LogLevel;
use crate::foundation::core_types::token::TokenSecret;

verus! {

/// The six core configuration keys owned by this layer.
pub const FOUNDATION_CONFIG_KEYS: [&'static str; 6] = [
    "vault_path",
    "server_endpoint",
    "token",
    "secure_store_enabled",
    "log_level",
    "notify_consecutive_failures",
];

/// Total vault size limit (20 GiB); not configurable.
pub const MAX_VAULT_TOTAL_BYTES: u64 = 21474836480;

/// Per-file size limit (2 GiB); not configurable.
pub const MAX_FILE_BYTES: u64 = 2147483648;

/// Total file count limit; not configurable.
pub const MAX_FILE_COUNT: u64 = 100000;

/// Typed core configuration parsed and validated from the JSON file.
#[derive(Clone, PartialEq, Eq)]
pub struct WatcherConfig {
    /// Vault root: required, non-empty absolute filesystem path.
    pub vault_path: String,
    /// Server endpoint: required, valid URL with the `https` scheme.
    pub server_endpoint: String,
    /// API token (optional); present but blank is invalid.
    pub token: Option<TokenSecret>,
    /// Whether the secure store is used (default `false`).
    pub secure_store_enabled: bool,
    /// Minimum log level (default `Info`).
    pub log_level: LogLevel,
    /// Consecutive-failure notification threshold (default 3, at least 1).
    pub notify_consecutive_failures: u32,
}

/// Default of `log_level`: `Info`.
pub fn default_log_level() -> (l: LogLevel)
    ensures
        l == LogLevel::Info,
{
    LogLevel::Info
}

/// Default of `notify_consecutive_failures`: 3.
pub fn default_notify_consecutive_failures() -> (n: u32)
    ensures
        n == 3,
{
    3
}

/// Lock-free read snapshot of the active configuration.
#[derive(Clone)]
pub struct ConfigSnapshot(Arc<WatcherConfig>);

impl ConfigSnapshot {
    /// The configuration this snapshot holds.
    pub closed spec fn spec_config(&self) -> WatcherConfig {
        *self.0
    }

    /// Wraps a shared configuration.
    pub fn new(config: Arc<WatcherConfig>) -> (s: Self)
        ensures
            s.spec_config() == *config,
    {
        ConfigSnapshot(config)
    }

    /// The configuration.
    pub fn config(&self) -> (c: &WatcherConfig)
        ensures
            *c == self.spec_config(),
    {
        &*self.0
    }

    /// The shared configuration, by value.
    pub fn into_arc(self) -> (a: Arc<WatcherConfig>)
        ensures
            *a == self.spec_config(),
    {
        self.0
    }
}

/// The structural stand-in served before the first load: empty required
/// fields (so it passes no validation), no token, secure store off, `Info`
/// level and the default failure threshold.
pub fn unloaded_placeholder() -> (c: WatcherConfig)
    ensures
        c.vault_path@.len() == 0,
        c.server_endpoint@.len() == 0,
        c.token is None,
        !c.secure_store_enabled,
        c.log_level == LogLevel::Info,
        c.notify_consecutive_failures == 3,
{
    WatcherConfig {
        vault_path: String::new(),
        server_endpoint: String::new(),
        token: None,
        secure_store_enabled: false,
        log_level: default_log_level(),
        notify_consecutive_failures: default_notify_consecutive_failures(),
    }
}

} // verus!
