//! Events shared between listeners, each with a flag by which a listener
//! stops the event from going further.

pub mod custom;
pub mod listener;

use std::sync::atomic::{AtomicBool, Ordering};
use std::sync::Arc;

use vstd::prelude::*;

verus! {

struct EventWithFlag<T> {
    intercepted: AtomicBool,
    inner: T,
}

/// An event that every listener sees, through a shared handle. Clones share
/// the event and its interception flag.
pub struct SharedEvent<T> {
    event: Arc<EventWithFlag<T>>,
}

/// Makes a second handle to the value behind an `Arc`.
///
/// Calls `Arc::clone`; std documents that the new handle points to the same
/// allocation, so it holds the same value.
#[verifier::external_body]
fn arc_clone<T>(a: &Arc<T>) -> (r: Arc<T>)
    ensures
        *r == **a,
{
    Arc::clone(a)
}

/// Takes the value out of an `Arc` when no other handle to it exists.
///
/// Calls `Arc::try_unwrap`; std documents that it returns the inner value
/// when this is the only strong handle, and hands the `Arc` back otherwise.
/// Which of the two happens depends on the other handles alive at the time,
/// so no clause says which one comes.
#[verifier::external_body]
fn arc_try_unwrap<T>(a: Arc<T>) -> (r: Result<T, Arc<T>>)
    ensures
        match r {
            Ok(t) => t == *a,
            Err(b) => b == a,
        },
{
    Arc::try_unwrap(a)
}

impl<T> SharedEvent<T> {
    /// The event that this handle shares.
    pub closed spec fn payload(&self) -> T {
        self.event.inner
    }

    /// Shares a new event, not yet intercepted.
    pub fn new(event: T) -> (r: Self)
        ensures
            r.payload() == event,
    {
        SharedEvent {
            event: Arc::new(EventWithFlag { intercepted: AtomicBool::new(false), inner: event }),
        }
    }

    /// The event that this handle shares.
    pub fn inner(&self) -> (r: &T)
        ensures
            *r == self.payload(),
    {
        &self.event.inner
    }

    /// Marks the event as intercepted, for every handle to it.
    pub fn intercept(&self) {
        self.event.intercepted.store(true, Ordering::Relaxed);
    }

    /// Whether some listener has intercepted the event. Other handles may
    /// set the flag at any time, so the answer is whatever the flag held when
    /// it was read.
    pub fn is_intercepted(&self) -> (r: bool) {
        self.event.intercepted.load(Ordering::Relaxed)
    }

    /// Takes the event out when this is its last handle; hands the handle
    /// back otherwise.
    pub fn try_into_inner(self) -> (r: Result<T, Self>)
        ensures
            match r {
                Ok(t) => t == self.payload(),
                Err(e) => e.payload() == self.payload(),
            },
    {
        match arc_try_unwrap(self.event) {
            Ok(e) => Ok(e.inner),
            Err(arc) => Err(SharedEvent { event: arc }),
        }
    }
}

impl<T> Clone for SharedEvent<T> {
    fn clone(&self) -> (r: Self)
        ensures
            r.payload() == self.payload(),
    {
        SharedEvent { event: arc_clone(&self.event) }
    }
}

} // verus!
