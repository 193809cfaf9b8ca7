//! How the bot reacts to a plugin that fails.

use vstd::prelude::*;

verus! {

/// What to do when a plugin fails.
#[derive(Clone, Copy, PartialEq, Eq, Structural, Debug)]
pub enum FaultAttitude {
    /// Stop the program at once, recording the stack.
    FastFault,
    /// Ignore the failure and close the failing listener, recording the
    /// stack.
    Ignore,
}

impl Default for FaultAttitude {
    fn default() -> (r: Self)
        ensures
            r == FaultAttitude::FastFault,
    {
        FaultAttitude::FastFault
    }
}

} // verus!
