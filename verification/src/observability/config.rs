//! The resolved configuration views injected into the observability
//! components, and the configuration keys this layer owns.

use vstd::prelude::*;

use crate::foundation::core_types::primitives::ByteCount;
use crate::foundation::core_types::sink::LogLevel;

verus! {

/// The configuration keys owned by the observability layer (the core keys
/// `log_level` and `notify_consecutive_failures` are not among them).
pub const OBSERVABILITY_CONFIG_KEYS: [&'static str; 5] = [
    "log_file",
    "log_max_size_bytes",
    "log_max_retained",
    "history_file",
    "tray_enabled",
];

/// Resolved observability configuration; paths in their textual form.
#[derive(Debug, Clone, PartialEq, Eq)]
pub struct ObservabilityConfig {
    /// Log file.
    pub log_file: String,
    /// Rotation size threshold (at least 1).
    pub log_max_size_bytes: ByteCount,
    /// Number of rotated files kept.
    pub log_max_retained: usize,
    /// History file.
    pub history_file: String,
    /// Tray flag (parsed only).
    pub tray_enabled: bool,
}

/// The logger's configuration: file, rotation parameters and initial level.
#[derive(Debug, Clone, PartialEq, Eq)]
pub struct LoggerConfig {
    /// Log file.
    pub log_file: String,
    /// Rotation size threshold.
    pub log_max_size_bytes: ByteCount,
    /// Number of rotated files kept.
    pub log_max_retained: usize,
    /// Minimum emitted level.
    pub log_level: LogLevel,
}

} // verus!
