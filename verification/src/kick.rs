//! Who a kick removes from a group: one member or several.

use vstd::prelude::*;

verus! {

/// Something that names the members to remove from a group.
pub trait ToKickMember: Sized {
    /// The accounts it names, in order.
    spec fn kick_targets(&self) -> Seq<i64>;

    /// The accounts it names, in order.
    fn to_member_vec(self) -> (r: Vec<i64>)
        ensures
            r@ == self.kick_targets(),
    ;
}

impl ToKickMember for i64 {
    open spec fn kick_targets(&self) -> Seq<i64> {
        seq![*self]
    }

    fn to_member_vec(self) -> (r: Vec<i64>) {
        let mut v: Vec<i64> = Vec::new();
        v.push(self);
        assert(v@ =~= seq![self]);
        v
    }
}

impl ToKickMember for Vec<i64> {
    open spec fn kick_targets(&self) -> Seq<i64> {
        self@
    }

    fn to_member_vec(self) -> (r: Vec<i64>) {
        self
    }
}

impl<const N: usize> ToKickMember for [i64; N] {
    open spec fn kick_targets(&self) -> Seq<i64> {
        self@
    }

    fn to_member_vec(self) -> (r: Vec<i64>) {
        vstd::slice::slice_to_vec(self.as_slice())
    }
}

impl<'a, const N: usize> ToKickMember for &'a [i64; N] {
    open spec fn kick_targets(&self) -> Seq<i64> {
        (**self)@
    }

    fn to_member_vec(self) -> (r: Vec<i64>) {
        vstd::slice::slice_to_vec(self.as_slice())
    }
}

} // verus!
