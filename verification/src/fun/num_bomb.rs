//! The number-bomb game: a hidden number between two bounds.

use rand::Rng;
use vstd::prelude::*;

verus! {

/// A number below `end`, drawn at random.
///
/// Calls `rand::Rng::gen_range` on the thread's generator with the range
/// `0..end`; the crate documents that it returns a value in the range and
/// panics on an empty range, which `requires` rules out. The value is random,
/// so nothing ties it to anything but the range.
#[verifier::external_body]
fn random_below(end: u16) -> (r: u16)
    requires
        0 < end,
    ensures
        r < end,
{
    rand::thread_rng().gen_range(0..end)
}

/// A number from `low` to `high`, both included, drawn at random.
///
/// Calls `rand::Rng::gen_range` on the thread's generator with the range
/// `low..=high`; the crate documents that it returns a value in the range
/// and panics on an empty range, which `requires` rules out.
#[verifier::external_body]
fn random_between(low: u16, high: u16) -> (r: u16)
    requires
        low <= high,
    ensures
        low <= r <= high,
{
    rand::thread_rng().gen_range(low..=high)
}

/// A round of the game: the hidden number and the bounds it lies between.
pub struct NumBomb {
    num: u16,
    start: u16,
    end: u16,
}

impl NumBomb {
    pub closed spec fn spec_num(&self) -> u16 {
        self.num
    }

    pub closed spec fn spec_start(&self) -> u16 {
        self.start
    }

    pub closed spec fn spec_end(&self) -> u16 {
        self.end
    }

    /// The round for two drawn bounds: when `start <= end`, a hidden number
    /// is drawn between them; when the bounds are out of order there is no
    /// round to play, and the answer is `None`.
    pub fn from_bounds(start: u16, end: u16) -> (r: Option<Self>)
        ensures
            r is Some <==> start <= end,
            match r {
                Some(b) => {
                    &&& b.spec_start() == start
                    &&& b.spec_end() == end
                    &&& start <= b.spec_num() <= end
                },
                None => true,
            },
    {
        if start <= end {
            let num = random_between(start, end);
            Some(NumBomb { num, start, end })
        } else {
            None
        }
    }

    /// A new round: two random bounds below `u16::MAX`, and a hidden number
    /// drawn between them, as `from_bounds` gives for the two bounds. The
    /// bounds are random, so whether they come out in order, and with them
    /// whether a round comes back, is left to chance.
    pub fn new() -> (r: Option<Self>)
        ensures
            match r {
                Some(b) => {
                    &&& b.spec_start() <= b.spec_num() <= b.spec_end()
                    &&& b.spec_end() < u16::MAX
                },
                None => true,
            },
    {
        let start = random_below(u16::MAX);
        let end = random_below(u16::MAX);
        Self::from_bounds(start, end)
    }

    /// The hidden number.
    pub fn num(&self) -> (r: u16)
        ensures
            r == self.spec_num(),
    {
        self.num
    }

    /// The lower bound.
    pub fn start(&self) -> (r: u16)
        ensures
            r == self.spec_start(),
    {
        self.start
    }

    /// The upper bound.
    pub fn end(&self) -> (r: u16)
        ensures
            r == self.spec_end(),
    {
        self.end
    }
}

} // verus!
