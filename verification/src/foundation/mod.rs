//! Root value layer: pure value types, pure functions and contract traits,
//! plus the configuration model and its validation rules.

pub mod config;
pub mod core_types;
