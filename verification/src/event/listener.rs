//! How a listener is set up, in what order listeners see an event, and the
//! guard that keeps a listener alive.

use std::sync::atomic::{AtomicBool, Ordering};
use std::sync::Arc;

use vstd::prelude::*;

use crate::text::push_text;

verus! {

/// The order in which listeners see an event: `Top` first, `Base` last.
#[derive(Clone, Copy, PartialEq, Eq, Structural, Debug)]
pub enum Priority {
    Top,
    High,
    Middle,
    Low,
    Base,
}

/// The rank of a priority: 0 for `Top` up to 4 for `Base`.
pub open spec fn priority_rank(p: Priority) -> u8 {
    match p {
        Priority::Top => 0,
        Priority::High => 1,
        Priority::Middle => 2,
        Priority::Low => 3,
        Priority::Base => 4,
    }
}

/// The priority of a rank; ranks above 4 give `Middle`.
pub open spec fn priority_of_rank(v: u8) -> Priority {
    if v == 0 {
        Priority::Top
    } else if v == 1 {
        Priority::High
    } else if v == 2 {
        Priority::Middle
    } else if v == 3 {
        Priority::Low
    } else if v == 4 {
        Priority::Base
    } else {
        Priority::Middle
    }
}

impl Priority {
    /// The rank of this priority: 0 for `Top` up to 4 for `Base`.
    pub fn rank(self) -> (r: u8)
        ensures
            r == priority_rank(self),
    {
        match self {
            Priority::Top => 0,
            Priority::High => 1,
            Priority::Middle => 2,
            Priority::Low => 3,
            Priority::Base => 4,
        }
    }
}

impl Default for Priority {
    fn default() -> (r: Self)
        ensures
            r == Priority::Middle,
    {
        Priority::Middle
    }
}

impl From<u8> for Priority {
    fn from(value: u8) -> (r: Self) {
        if value == 0 {
            Priority::Top
        } else if value == 1 {
            Priority::High
        } else if value == 2 {
            Priority::Middle
        } else if value == 3 {
            Priority::Low
        } else if value == 4 {
            Priority::Base
        } else {
            Priority::Middle
        }
    }
}

impl vstd::std_specs::convert::FromSpecImpl<u8> for Priority {
    open spec fn obeys_from_spec() -> bool {
        true
    }

    open spec fn from_spec(v: u8) -> Priority {
        priority_of_rank(v)
    }
}

/// A priority survives being sent as its rank: turning the rank back into a
/// priority gives the priority itself.
pub proof fn lemma_priority_rank_round_trip(p: Priority)
    ensures
        priority_of_rank(priority_rank(p)) == p,
{
}

/// How a listener is to be set up.
pub struct ListenerSettings {
    /// The listener's name; `None` names it "Unnamed-Listener".
    pub name: Option<String>,
    /// Whether the listener may handle several events at once.
    pub concurrent: bool,
    /// Whether the listener watches the broadcast channel itself instead of
    /// being scheduled with the other listeners.
    pub watcher: bool,
    pub priority: Priority,
}

impl ListenerSettings {
    /// The settings of a new listener: unnamed, concurrent, scheduled, of
    /// `Middle` priority.
    pub fn new() -> (r: Self)
        ensures
            r.name is None,
            r.concurrent,
            !r.watcher,
            r.priority == Priority::Middle,
    {
        ListenerSettings { name: None, concurrent: true, watcher: false, priority: Priority::Middle }
    }

    /// Names the listener.
    pub fn name(self, name: String) -> (r: Self)
        ensures
            r.name == Some(name),
            r.concurrent == self.concurrent,
            r.watcher == self.watcher,
            r.priority == self.priority,
    {
        ListenerSettings { name: Some(name), ..self }
    }

    /// Sets whether the listener may handle several events at once.
    pub fn concurrent(self, is: bool) -> (r: Self)
        ensures
            r.name == self.name,
            r.concurrent == is,
            r.watcher == self.watcher,
            r.priority == self.priority,
    {
        ListenerSettings { concurrent: is, ..self }
    }

    /// Sets the listener's priority.
    pub fn priority(self, priority: Priority) -> (r: Self)
        ensures
            r.name == self.name,
            r.concurrent == self.concurrent,
            r.watcher == self.watcher,
            r.priority == priority,
    {
        ListenerSettings { priority, ..self }
    }

    /// Sets whether the listener watches the broadcast channel itself.
    pub fn watcher(self, is: bool) -> (r: Self)
        ensures
            r.name == self.name,
            r.concurrent == self.concurrent,
            r.watcher == is,
            r.priority == self.priority,
    {
        ListenerSettings { watcher: is, ..self }
    }

    /// The name under which the listener runs: its own, or
    /// "Unnamed-Listener".
    pub fn take_name(self) -> (r: String)
        ensures
            match self.name {
                Some(n) => r@ == n@,
                None => r@ == "Unnamed-Listener"@,
            },
    {
        match self.name {
            Some(n) => n,
            None => {
                let mut s = String::new();
                push_text(&mut s, "Unnamed-Listener");
                s
            },
        }
    }
}

/// What waiting for the next event does with an event that arrives.
#[derive(Clone, Copy, PartialEq, Eq, Structural, Debug)]
pub enum WaitStep {
    /// Stop listening and hand this event back.
    Take,
    /// Let it pass and go on waiting, until the time runs out.
    Skip,
}

/// What waiting for the next event does with an event that arrives: the
/// first one that passes the filter ends the wait.
pub fn next_event_step(passes_filter: bool) -> (r: WaitStep)
    ensures
        passes_filter ==> r == WaitStep::Take,
        !passes_filter ==> r == WaitStep::Skip,
{
    if passes_filter {
        WaitStep::Take
    } else {
        WaitStep::Skip
    }
}

/// Whether a watching listener goes on to the next event: only when its
/// handler asked to, and its guard has not been dropped.
pub fn keeps_listening(keep: bool, closed: bool) -> (r: bool)
    ensures
        r == (keep && !closed),
{
    keep && !closed
}

/// Flags a listener as closed.
///
/// Calls `AtomicBool::store`, which std documents as not panicking for the
/// `Relaxed` ordering.
#[verifier::external_body]
fn mark_closed(flag: &AtomicBool)
    opens_invariants none
    no_unwind
{
    flag.store(true, Ordering::Relaxed);
}

/// Keeps a listener alive; the listener closes when its guard is dropped.
pub struct ListenerGuard {
    name: Arc<String>,
    closed: Arc<AtomicBool>,
}

impl ListenerGuard {
    /// The name that the guard reports.
    pub closed spec fn spec_name(&self) -> Seq<char> {
        (*self.name)@
    }

    /// A guard for the listener of the given name, which closes the
    /// listener through the given flag.
    pub fn new(name: Arc<String>, closed: Arc<AtomicBool>) -> (r: Self)
        ensures
            r.spec_name() == (*name)@,
    {
        ListenerGuard { name, closed }
    }

    /// The listener's name.
    pub fn name(&self) -> (r: &str)
        ensures
            r@ == self.spec_name(),
    {
        let s: &String = &self.name;
        s.as_str()
    }

    /// Whether the listener has closed. The listener may stop on its own at
    /// any time, so the answer is whatever the flag held when it was read.
    pub fn closed(&self) -> (r: bool) {
        self.closed.load(Ordering::Acquire)
    }
}

impl Drop for ListenerGuard {
    fn drop(&mut self)
        opens_invariants none
        no_unwind
    {
        mark_closed(&self.closed);
    }
}

} // verus!
