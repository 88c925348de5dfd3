//! Push-only observability layer: status aggregation and verdicts, the
//! critical-event fan-out with its consecutive-failure escalation, the upload
//! history framing and query, the structured log line rules, and a no-op tray.

pub mod clock;
pub mod config;
pub mod critical;
pub mod error;
pub mod history;
pub mod logger;
pub mod status;
pub mod tray;
