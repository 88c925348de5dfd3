//! Errors of the observability read and re-apply paths (`query`, `reload`);
//! the push surfaces swallow them.

use vstd::prelude::*;

use crate::foundation::core_types::error::CodecError;
use crate::text::{push_str, string_of};

verus! {

/// Log file I/O, path or rotation failure.
#[derive(Debug, Clone, PartialEq, Eq)]
pub enum LogError {
    /// Append or read failed.
    Io(String),
    /// Invalid log path.
    InvalidPath(String),
    /// Rename or delete during rotation failed.
    RotationFailed(String),
}

/// A message made of a fixed prefix and a detail.
fn prefixed(prefix: &str, detail: &str) -> (s: String)
    ensures
        s@ == prefix@ + detail@,
{
    let mut s = string_of(prefix);
    push_str(&mut s, detail);
    s
}

impl LogError {
    /// The message of the error.
    pub fn message(&self) -> (s: String)
        ensures
            s@ == match *self {
                LogError::Io(d) => "로그 파일 I/O 실패: "@ + d@,
                LogError::InvalidPath(d) => "잘못된 로그 경로: "@ + d@,
                LogError::RotationFailed(d) => "로그 rotation 실패: "@ + d@,
            },
    {
        match self {
            LogError::Io(d) => prefixed("로그 파일 I/O 실패: ", d.as_str()),
            LogError::InvalidPath(d) => prefixed("잘못된 로그 경로: ", d.as_str()),
            LogError::RotationFailed(d) => prefixed("로그 rotation 실패: ", d.as_str()),
        }
    }
}

/// History file I/O, serialisation or mid-file corruption.
#[derive(Debug, Clone, PartialEq, Eq)]
pub enum HistoryError {
    /// Append or read failed.
    Io(String),
    /// Encoding or decoding failed.
    Serde(String),
    /// A frame in the middle of the file is damaged (not a truncated tail).
    Corrupt(String),
}

impl HistoryError {
    /// The message of the error.
    pub fn message(&self) -> (s: String)
        ensures
            s@ == match *self {
                HistoryError::Io(d) => "히스토리 파일 I/O 실패: "@ + d@,
                HistoryError::Serde(d) => "히스토리 직렬화 실패: "@ + d@,
                HistoryError::Corrupt(d) => "히스토리 파일 손상(중간 프레임): "@ + d@,
            },
    {
        match self {
            HistoryError::Io(d) => prefixed("히스토리 파일 I/O 실패: ", d.as_str()),
            HistoryError::Serde(d) => prefixed("히스토리 직렬화 실패: ", d.as_str()),
            HistoryError::Corrupt(d) => prefixed("히스토리 파일 손상(중간 프레임): ", d.as_str()),
        }
    }

    /// A codec failure as a serialisation error carrying the codec's message.
    pub fn from_codec(err: &CodecError) -> (e: HistoryError)
        ensures
            e matches HistoryError::Serde(m) && m@ == crate::foundation::core_types::error::spec_codec_message(*err),
    {
        HistoryError::Serde(err.message())
    }
}

} // verus!
