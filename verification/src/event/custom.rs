//! Events that plugins define for themselves.

use vstd::prelude::*;

use crate::event::SharedEvent;

verus! {

/// An event of a plugin's own type, shared like the bot's events.
pub struct CustomEvent<T>(SharedEvent<T>);

impl<T> CustomEvent<T> {
    /// The event that this handle shares.
    pub closed spec fn payload(&self) -> T {
        self.0.payload()
    }

    /// Shares a new event, not yet intercepted.
    pub fn new(inner: T) -> (r: Self)
        ensures
            r.payload() == inner,
    {
        CustomEvent(SharedEvent::new(inner))
    }
}

} // verus!
