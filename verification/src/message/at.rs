//! Mentions of a group member, or of the whole group.

use vstd::prelude::*;

verus! {

/// A mention: the member's id and the text shown for it.
pub struct At {
    pub target: i64,
    pub display: String,
}

/// The mathematical value of an [`At`].
pub ghost struct AtView {
    pub target: i64,
    pub display: Seq<char>,
}

impl View for At {
    type V = AtView;

    open spec fn view(&self) -> AtView {
        AtView { target: self.target, display: self.display@ }
    }
}

impl Clone for At {
    fn clone(&self) -> (r: Self)
        ensures
            r@ == self@,
    {
        At { target: self.target, display: self.display.clone() }
    }
}

impl At {
    /// The mention of every member: target 0 with an empty display text.
    pub fn all() -> (r: At)
        ensures
            r@ == (AtView { target: 0, display: Seq::empty() }),
    {
        At { target: 0, display: String::new() }
    }
}

} // verus!
