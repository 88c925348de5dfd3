//! Deployment lifecycle: service registration with an OS-neutral contract,
//! automatic update with a bounded health wait and rollback, and uninstall
//! that never touches the vault.

pub mod clock;
pub mod platform;
pub mod service;
pub mod uninstall;
pub mod update;
