//! Pure value types, pure functions and push-only contract traits.

pub mod error;
pub mod manifest;
pub mod path;
pub mod primitives;
pub mod sink;
pub mod status;
pub mod sync_state;
pub mod token;
