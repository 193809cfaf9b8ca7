//! Forwarded conversations: a list of messages, each shown with its
//! original sender and time, possibly nesting further forwarded lists.

use vstd::prelude::*;

use crate::message::MessageChain;

verus! {

/// Who sent a forwarded message, and when.
pub struct ForwardNodeInfo {
    pub sender_id: i64,
    pub sender_name: String,
    pub time: i32,
}

/// One forwarded message, or a nested forwarded conversation.
pub enum ForwardNode {
    NormalMessage { info: ForwardNodeInfo, chain: MessageChain },
    ForwardMessage { info: ForwardNodeInfo, forward: ForwardMessage },
}

/// A forwarded conversation.
pub struct ForwardMessage(Vec<ForwardNode>);

impl View for ForwardMessage {
    type V = Seq<ForwardNode>;

    closed spec fn view(&self) -> Seq<ForwardNode> {
        self.0@
    }
}

impl ForwardMessage {
    /// A conversation of the given nodes, in order.
    pub fn from_nodes(nodes: Vec<ForwardNode>) -> (r: ForwardMessage)
        ensures
            r@ == nodes@,
    {
        ForwardMessage(nodes)
    }

    /// The nodes of this conversation, in order.
    pub fn into_nodes(self) -> (r: Vec<ForwardNode>)
        ensures
            r@ == self@,
    {
        self.0
    }

    /// The number of nodes.
    pub fn len(&self) -> (n: usize)
        ensures
            n == self@.len(),
    {
        self.0.len()
    }

    /// The nodes of this conversation, in order.
    pub fn iter(&self) -> (r: std::slice::Iter<'_, ForwardNode>)
        ensures
            vstd::std_specs::slice::into_iter_elts(r) == self@,
    {
        broadcast use vstd::std_specs::slice::axiom_spec_slice_iter;

        let r = self.0.iter();
        assert(vstd::std_specs::iter::IteratorSpec::remaining(&r).unref() =~= self.0@);
        r
    }

    /// A conversation of one message.
    pub fn from_message_chain(
        sender_id: i64,
        sender_name: String,
        time: i32,
        chain: MessageChain,
    ) -> (r: ForwardMessage)
        ensures
            r@ == seq![
                ForwardNode::NormalMessage {
                    info: ForwardNodeInfo { sender_id, sender_name, time },
                    chain,
                },
            ],
    {
        let mut v: Vec<ForwardNode> = Vec::new();
        v.push(
            ForwardNode::NormalMessage { info: ForwardNodeInfo { sender_id, sender_name, time }, chain },
        );
        ForwardMessage(v)
    }
}

} // verus!
