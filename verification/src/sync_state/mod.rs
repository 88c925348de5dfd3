//! Resilience of the watcher: the persisted sync state with its
//! crash-recovery rules, and the retry state machine (classification,
//! jittered backoff delay, escalation threshold).

pub mod retry;
pub mod store;
