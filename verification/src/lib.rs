//! Local vault-watch upload daemon library: value types, configuration
//! validation, sync-state bookkeeping, observability, deployment lifecycle and
//! operator control, with their rules stated as Verus contracts.

pub mod foundation;
pub mod lifecycle;
pub mod observability;
pub mod ops_control;
pub mod sync_state;
mod text;
