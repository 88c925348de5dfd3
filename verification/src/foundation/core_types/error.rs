//! Error taxonomy: the retry classification consumed by the retry policy, the
//! transport-level classification, generic classified errors, transfer results
//! and codec failures.

use vstd::prelude::*;

use super::primitives::ByteCount;

verus! {

/// Semantic classification of an error, consumed by the retry policy.
#[derive(Debug, Clone, Copy, PartialEq, Eq, Hash, Structural)]
pub enum ErrorClass {
    /// Transient error: retried after backoff.
    Retryable,
    /// Authentication failure (e.g. 401): never retried.
    AuthAborted,
    /// Server congestion: a normal delay, retried after backoff.
    Backpressure,
    /// Permanent or fatal failure: retrying is pointless.
    Fatal,
}

/// Whether a class of error is retried: `Retryable` and `Backpressure` are,
/// `AuthAborted` and `Fatal` are not.
pub open spec fn spec_is_retryable(c: ErrorClass) -> bool {
    c == ErrorClass::Retryable || c == ErrorClass::Backpressure
}

impl ErrorClass {
    /// Total decision whether this class is retryable.
    pub fn is_retryable(&self) -> (r: bool)
        ensures
            r == spec_is_retryable(*self),
    {
        match self {
            ErrorClass::Retryable => true,
            ErrorClass::Backpressure => true,
            ErrorClass::AuthAborted => false,
            ErrorClass::Fatal => false,
        }
    }
}

/// Semantic classification of a transport-level failure.
#[derive(Debug, Clone, Copy, PartialEq, Eq, Hash, Structural)]
pub enum TransportErrorClass {
    /// Authentication failure (HTTP 401).
    AuthFailed,
    /// Transient server-side failure (HTTP 5xx).
    ServerError,
    /// Server congestion (busy, queue full, 429).
    Backpressure,
    /// Request timeout.
    Timeout,
    /// Connection failure.
    Network,
}

/// The fixed mapping from transport classes to retry classes.
pub open spec fn spec_to_error_class(c: TransportErrorClass) -> ErrorClass {
    match c {
        TransportErrorClass::AuthFailed => ErrorClass::AuthAborted,
        TransportErrorClass::ServerError => ErrorClass::Retryable,
        TransportErrorClass::Backpressure => ErrorClass::Backpressure,
        TransportErrorClass::Timeout => ErrorClass::Retryable,
        TransportErrorClass::Network => ErrorClass::Retryable,
    }
}

impl TransportErrorClass {
    /// Maps each transport class to exactly one retry class.
    pub fn to_error_class(&self) -> (r: ErrorClass)
        ensures
            r == spec_to_error_class(*self),
    {
        match self {
            TransportErrorClass::AuthFailed => ErrorClass::AuthAborted,
            TransportErrorClass::ServerError => ErrorClass::Retryable,
            TransportErrorClass::Backpressure => ErrorClass::Backpressure,
            TransportErrorClass::Timeout => ErrorClass::Retryable,
            TransportErrorClass::Network => ErrorClass::Retryable,
        }
    }
}

/// Detailed shape of a transport failure.
#[derive(Debug, Clone, PartialEq, Eq)]
pub struct TransportError {
    /// Semantic class of the failure.
    pub class: TransportErrorClass,
    /// HTTP status code, when there is one.
    pub http_status: Option<u16>,
    /// Free-form diagnostic detail.
    pub detail: String,
}

/// Transport-independent classified error.
#[derive(Debug, Clone, PartialEq, Eq)]
pub struct ClassifiedError {
    /// Retry classification.
    pub class: ErrorClass,
    /// Domain or protocol code, when there is one.
    pub code: Option<String>,
    /// Free-form diagnostic detail.
    pub detail: String,
}

/// Outcome of transferring one blob or one cycle.
#[derive(Debug, Clone, PartialEq, Eq)]
pub enum TransferResult {
    /// Transfer complete.
    Success {
        /// Total bytes transferred.
        bytes: ByteCount,
    },
    /// Partial transfer, resumable from the last acknowledged offset.
    Partial {
        /// Bytes transferred.
        bytes: ByteCount,
        /// Resume offset (last acknowledged position).
        resume_offset: ByteCount,
    },
    /// Failure with its classified error.
    Failed {
        /// The classified failure.
        error: ClassifiedError,
    },
}

/// Failure of encoding or decoding persisted state; always fatal.
#[derive(Debug)]
pub enum CodecError {
    /// Encoding a value failed.
    Encode(String),
    /// Decoding a byte sequence failed (truncated, corrupt or hostile input).
    Decode(String),
}

/// The message of a codec failure.
pub open spec fn spec_codec_message(e: CodecError) -> Seq<char> {
    match e {
        CodecError::Encode(d) => "CBOR 인코딩 실패: "@ + d@,
        CodecError::Decode(d) => "CBOR 디코딩 실패: "@ + d@,
    }
}

impl CodecError {
    /// The message of the failure.
    pub fn message(&self) -> (s: String)
        ensures
            s@ == spec_codec_message(*self),
    {
        let (prefix, detail) = match self {
            CodecError::Encode(d) => ("CBOR 인코딩 실패: ", d.as_str()),
            CodecError::Decode(d) => ("CBOR 디코딩 실패: ", d.as_str()),
        };
        let mut s = crate::text::string_of(prefix);
        crate::text::push_str(&mut s, detail);
        s
    }

    /// The retry classification of a codec failure: always `Fatal`.
    pub fn error_class(&self) -> (c: ErrorClass)
        ensures
            c == ErrorClass::Fatal,
            !spec_is_retryable(c),
    {
        ErrorClass::Fatal
    }
}

} // verus!
