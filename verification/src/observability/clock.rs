//! Now-source seam used to stamp emitted log lines.

use vstd::prelude::*;

use crate::foundation::core_types::primitives::Timestamp;

verus! {

/// Now-source of emission timestamps.
pub trait Clock: Send + Sync {
    /// The current wall-clock instant.
    fn now(&self) -> Timestamp;
}

} // verus!
