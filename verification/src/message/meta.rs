//! What a message carries besides its content: sequence numbers, the
//! sender, an anonymous identity and a quoted message.

use vstd::prelude::*;

use crate::message::{clone_elements, elements_view, ElementView, MessageElement};

verus! {

/// The identity under which an anonymous group message was sent.
pub struct Anonymous {
    pub anon_id: Vec<u8>,
    pub nick: String,
    pub portrait_index: i32,
    pub bubble_index: i32,
    pub expire_time: i32,
    pub color: String,
}

/// The mathematical value of an [`Anonymous`].
pub ghost struct AnonymousView {
    pub anon_id: Seq<u8>,
    pub nick: Seq<char>,
    pub portrait_index: i32,
    pub bubble_index: i32,
    pub expire_time: i32,
    pub color: Seq<char>,
}

impl View for Anonymous {
    type V = AnonymousView;

    open spec fn view(&self) -> AnonymousView {
        AnonymousView {
            anon_id: self.anon_id@,
            nick: self.nick@,
            portrait_index: self.portrait_index,
            bubble_index: self.bubble_index,
            expire_time: self.expire_time,
            color: self.color@,
        }
    }
}

impl Clone for Anonymous {
    fn clone(&self) -> (r: Self)
        ensures
            r@ == self@,
    {
        let r = Anonymous {
            anon_id: self.anon_id.clone(),
            nick: self.nick.clone(),
            portrait_index: self.portrait_index,
            bubble_index: self.bubble_index,
            expire_time: self.expire_time,
            color: self.color.clone(),
        };
        assert(r.anon_id@ =~= self.anon_id@);
        r
    }
}

impl Default for Anonymous {
    fn default() -> (r: Self)
        ensures
            r@ == (AnonymousView {
                anon_id: Seq::empty(),
                nick: Seq::empty(),
                portrait_index: 0,
                bubble_index: 0,
                expire_time: 0,
                color: Seq::empty(),
            }),
    {
        Anonymous {
            anon_id: Vec::new(),
            nick: String::new(),
            portrait_index: 0,
            bubble_index: 0,
            expire_time: 0,
            color: String::new(),
        }
    }
}

/// A quoted message: its sequence number, sender, time and content.
pub struct Reply {
    pub reply_seq: i32,
    pub sender: i64,
    pub time: i32,
    pub elements: Vec<MessageElement>,
}

/// The mathematical value of a [`Reply`].
pub ghost struct ReplyView {
    pub reply_seq: i32,
    pub sender: i64,
    pub time: i32,
    pub elements: Seq<ElementView>,
}

impl View for Reply {
    type V = ReplyView;

    open spec fn view(&self) -> ReplyView {
        ReplyView {
            reply_seq: self.reply_seq,
            sender: self.sender,
            time: self.time,
            elements: elements_view(self.elements@),
        }
    }
}

impl Clone for Reply {
    fn clone(&self) -> (r: Self)
        ensures
            r@ == self@,
    {
        Reply {
            reply_seq: self.reply_seq,
            sender: self.sender,
            time: self.time,
            elements: clone_elements(&self.elements),
        }
    }
}

/// The metadata of a message.
pub struct MessageMetadata {
    pub seqs: Vec<i32>,
    pub rands: Vec<i32>,
    pub time: i32,
    pub sender: i64,
    pub anonymous: Option<Anonymous>,
    pub reply: Option<Reply>,
}

/// The mathematical value of a [`MessageMetadata`].
pub ghost struct MetadataView {
    pub seqs: Seq<i32>,
    pub rands: Seq<i32>,
    pub time: i32,
    pub sender: i64,
    pub anonymous: Option<AnonymousView>,
    pub reply: Option<ReplyView>,
}

/// The view of an optional anonymous identity.
pub open spec fn anonymous_view(a: Option<Anonymous>) -> Option<AnonymousView> {
    match a {
        Some(a) => Some(a@),
        None => None,
    }
}

/// The view of an optional quoted message.
pub open spec fn reply_view(r: Option<Reply>) -> Option<ReplyView> {
    match r {
        Some(r) => Some(r@),
        None => None,
    }
}

impl View for MessageMetadata {
    type V = MetadataView;

    open spec fn view(&self) -> MetadataView {
        MetadataView {
            seqs: self.seqs@,
            rands: self.rands@,
            time: self.time,
            sender: self.sender,
            anonymous: anonymous_view(self.anonymous),
            reply: reply_view(self.reply),
        }
    }
}

/// Metadata with nothing in it: no sequence numbers, time and sender 0, no
/// anonymous identity and no quoted message.
pub open spec fn empty_metadata() -> MetadataView {
    MetadataView {
        seqs: Seq::empty(),
        rands: Seq::empty(),
        time: 0,
        sender: 0,
        anonymous: None,
        reply: None,
    }
}

impl Clone for MessageMetadata {
    fn clone(&self) -> (r: Self)
        ensures
            r@ == self@,
    {
        let anonymous = match &self.anonymous {
            Some(a) => Some(a.clone()),
            None => None,
        };
        let reply = match &self.reply {
            Some(x) => Some(x.clone()),
            None => None,
        };
        let r = MessageMetadata {
            seqs: self.seqs.clone(),
            rands: self.rands.clone(),
            time: self.time,
            sender: self.sender,
            anonymous,
            reply,
        };
        assert(r.seqs@ =~= self.seqs@);
        assert(r.rands@ =~= self.rands@);
        r
    }
}

impl Default for MessageMetadata {
    fn default() -> (r: Self)
        ensures
            r@ == empty_metadata(),
    {
        MessageMetadata {
            seqs: Vec::new(),
            rands: Vec::new(),
            time: 0,
            sender: 0,
            anonymous: None,
            reply: None,
        }
    }
}

} // verus!
