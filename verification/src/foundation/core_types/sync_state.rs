//! Sync-cycle state of the latest-state replacement model.

use vstd::prelude::*;

verus! {

/// Sync-cycle state (linear, with dirty re-entry); the dirty flag is kept apart.
#[derive(Debug, Clone, Copy, PartialEq, Eq, Hash, Structural)]
pub enum SyncState {
    /// No pending change.
    Idle,
    /// Uncommitted change present; the next cycle must re-snapshot.
    Dirty,
    /// A cycle is running (negotiate, transfer, commit).
    Uploading,
    /// Upload succeeded; around the commit.
    Committed,
}

} // verus!
