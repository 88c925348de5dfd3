//! The reload observer registry: fixed at startup, kept in registration order.


use vstd::prelude::*;

use crate::foundation::core_types::sink::ConfigReloadObserver;

verus! {

/// Observers in registration order; registered once during assembly.
pub struct ObserverRegistry {
    observers: Vec<Box<dyn ConfigReloadObserver>>,
}

impl ObserverRegistry {
    /// The observers, in registration order.
    pub closed spec fn spec_observers(&self) -> Seq<Box<dyn ConfigReloadObserver>> {
        self.observers@
    }

    /// The number of observers.
    pub open spec fn spec_len(&self) -> nat {
        self.spec_observers().len()
    }

    /// An empty registry.
    pub fn new() -> (r: Self)
        ensures
            r.spec_observers() == Seq::<Box<dyn ConfigReloadObserver>>::empty(),
    {
        ObserverRegistry { observers: Vec::new() }
    }

    /// Adds an observer after the existing ones.
    pub fn subscribe(&mut self, observer: Box<dyn ConfigReloadObserver>)
        ensures
            final(self).spec_observers() == old(self).spec_observers().push(observer),
    {
        self.observers.push(observer);
    }

    /// The observers, in registration order (for the fan-out).
    pub fn observers(&self) -> (o: &[Box<dyn ConfigReloadObserver>])
        ensures
            o@ == self.spec_observers(),
    {
        self.observers.as_slice()
    }

    /// The number of observers.
    pub fn len(&self) -> (n: usize)
        ensures
            n == self.spec_len(),
    {
        self.observers.len()
    }

    /// Whether no observer is registered.
    pub fn is_empty(&self) -> (b: bool)
        ensures
            b == (self.spec_len() == 0),
    {
        self.observers.len() == 0
    }
}

} // verus!
