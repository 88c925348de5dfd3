//! Now-source and sleep seam of the bounded-time health wait.

use std::time::Duration;

use vstd::prelude::*;

use crate::foundation::core_types::primitives::Timestamp;

verus! {

/// Now-source plus sleep of the health wait's time model.
///
/// `reads(t)` is the implementation's relation of the instants `now` can
/// give; by default every instant is possible.
pub trait Clock: Send + Sync {
    /// `t` is an instant that `now` can give.
    open spec fn reads(&self, t: Timestamp) -> bool {
        true
    }

    /// The current wall-clock instant.
    fn now(&self) -> (t: Timestamp)
        ensures
            self.reads(t),
    ;

    /// Waits for the given duration (the poll interval).
    fn sleep(&self, dur: Duration);
}

} // verus!
