//! No-op tray adapter: every operation does nothing and never fails, so the
//! log and status surfaces never depend on a tray.

use vstd::prelude::*;

use crate::foundation::core_types::status::StatusSnapshot;

verus! {

/// Tray configuration; the no-op adapter ignores it.
#[derive(Debug, Clone, Copy, PartialEq, Eq, Default)]
pub struct TrayConfig {
    /// Tray enabled flag (parsed only).
    pub tray_enabled: bool,
}

/// Opaque tray handle; the no-op adapter never hands one out.
#[derive(Debug, Clone, Copy, PartialEq, Eq)]
pub struct TrayHandle;

/// A tray notification; the no-op adapter ignores it.
#[derive(Debug, Clone, PartialEq, Eq)]
pub struct NotificationMessage {
    /// Title.
    pub title: String,
    /// Body.
    pub body: String,
}

/// Tray errors (all non-fatal).
#[derive(Debug, Clone, Copy, PartialEq, Eq)]
pub enum TrayError {
    /// The platform has no tray.
    Unsupported,
    /// Tray initialisation failed.
    InitFailed,
}

impl TrayError {
    /// The message of the error.
    pub fn message(&self) -> (s: String)
        ensures
            s@ == match *self {
                TrayError::Unsupported => "트레이 미지원"@,
                TrayError::InitFailed => "트레이 초기화 실패"@,
            },
    {
        match self {
            TrayError::Unsupported => crate::text::string_of("트레이 미지원"),
            TrayError::InitFailed => crate::text::string_of("트레이 초기화 실패"),
        }
    }
}

/// The no-op tray sink.
#[derive(Debug, Clone, Copy, Default)]
pub struct TrayIndicator;

impl TrayIndicator {
    /// A no-op tray indicator.
    pub fn new() -> Self {
        TrayIndicator
    }

    /// Starts the tray: the no-op adapter creates none and returns `Ok(None)`.
    pub fn start(&self, cfg: &TrayConfig) -> (r: Result<Option<TrayHandle>, TrayError>)
        ensures
            r == Ok::<Option<TrayHandle>, TrayError>(None),
    {
        Ok(None)
    }

    /// Renders the status: does nothing.
    pub fn render(&self, snapshot: &StatusSnapshot) {
    }

    /// Shows a notification: does nothing.
    pub fn notify(&self, message: NotificationMessage) {
    }

    /// Stops the tray: does nothing.
    pub fn stop(&self) {
    }
}

} // verus!
