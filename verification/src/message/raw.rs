//! The flat element list in which the protocol carries a message: the
//! anonymous identity and the quoted message travel as elements beside the
//! content.

use vstd::prelude::*;

use crate::message::at::{At, AtView};
use crate::message::face::{Face, FaceView};
use crate::message::image::{FriendImage, FriendImageView, GroupImage, GroupImageView, Image, ImageView};
use crate::message::meta::{Anonymous, AnonymousView, Reply, ReplyView};
use crate::message::{ElementView, MessageElement};

verus! {

/// One element of the protocol's element list.
pub enum RawElement {
    Text(String),
    GroupImage(GroupImage),
    FriendImage(FriendImage),
    /// A mention; target 0 mentions every member.
    At(At),
    Face(Face),
    /// The anonymous identity of an anonymous group message.
    Anonymous(Anonymous),
    /// The message that this one quotes.
    Reply(Reply),
    /// Any other element, by the text that the protocol layer shows for it.
    Other(String),
}

/// The mathematical value of a [`RawElement`].
pub ghost enum RawView {
    Text(Seq<char>),
    GroupImage(GroupImageView),
    FriendImage(FriendImageView),
    At(AtView),
    Face(FaceView),
    Anonymous(AnonymousView),
    Reply(ReplyView),
    Other(Seq<char>),
}

impl View for RawElement {
    type V = RawView;

    open spec fn view(&self) -> RawView {
        match self {
            RawElement::Text(t) => RawView::Text(t@),
            RawElement::GroupImage(g) => RawView::GroupImage(g@),
            RawElement::FriendImage(f) => RawView::FriendImage(f@),
            RawElement::At(a) => RawView::At(a@),
            RawElement::Face(f) => RawView::Face(f@),
            RawElement::Anonymous(a) => RawView::Anonymous(a@),
            RawElement::Reply(r) => RawView::Reply(r@),
            RawElement::Other(t) => RawView::Other(t@),
        }
    }
}

/// The views of a list of protocol elements.
pub open spec fn raws_view(s: Seq<RawElement>) -> Seq<RawView> {
    s.map_values(|r: RawElement| r@)
}

/// Whether a protocol element carries metadata rather than content.
pub open spec fn is_meta(r: RawView) -> bool {
    r is Anonymous || r is Reply
}

/// The content element that a protocol element stands for: a mention of
/// target 0 is the mention of every member, and an element of another kind
/// is kept by its text.
pub open spec fn element_of_raw(r: RawView) -> ElementView
    recommends
        !is_meta(r),
{
    match r {
        RawView::Text(t) => ElementView::Text(t),
        RawView::GroupImage(g) => ElementView::Image(ImageView::Group(g)),
        RawView::FriendImage(f) => ElementView::Image(ImageView::Friend(f)),
        RawView::At(a) => if a.target == 0 {
            ElementView::AtAll
        } else {
            ElementView::At(a)
        },
        RawView::Face(f) => ElementView::Face(f),
        RawView::Other(t) => ElementView::Unknown(t),
        RawView::Anonymous(_) => ElementView::Unknown(Seq::empty()),
        RawView::Reply(_) => ElementView::Unknown(Seq::empty()),
    }
}

/// The protocol elements that a content element is sent as: none for an
/// element of an unknown kind, and the mention of target 0 with empty text
/// for the mention of every member.
pub open spec fn raws_of_element(e: ElementView) -> Seq<RawView> {
    match e {
        ElementView::Text(t) => seq![RawView::Text(t)],
        ElementView::Image(ImageView::Group(g)) => seq![RawView::GroupImage(g)],
        ElementView::Image(ImageView::Friend(f)) => seq![RawView::FriendImage(f)],
        ElementView::At(a) => seq![RawView::At(a)],
        ElementView::AtAll => seq![RawView::At(AtView { target: 0, display: Seq::empty() })],
        ElementView::Face(f) => seq![RawView::Face(f)],
        ElementView::Unknown(_) => Seq::empty(),
    }
}

/// The protocol elements that a sequence of content elements is sent as.
pub open spec fn raws_of_elements(s: Seq<ElementView>) -> Seq<RawView>
    decreases s.len(),
{
    if s.len() == 0 {
        Seq::empty()
    } else {
        raws_of_elements(s.drop_last()) + raws_of_element(s.last())
    }
}

/// The content of a protocol element list: its elements that are not
/// metadata, in order.
pub open spec fn content_of_raws(s: Seq<RawView>) -> Seq<ElementView>
    decreases s.len(),
{
    if s.len() == 0 {
        Seq::empty()
    } else if is_meta(s.last()) {
        content_of_raws(s.drop_last())
    } else {
        content_of_raws(s.drop_last()).push(element_of_raw(s.last()))
    }
}

/// The anonymous identity of a protocol element list: the last one it
/// carries, if any.
pub open spec fn anonymous_of_raws(s: Seq<RawView>) -> Option<AnonymousView>
    decreases s.len(),
{
    if s.len() == 0 {
        None
    } else {
        match s.last() {
            RawView::Anonymous(a) => Some(a),
            _ => anonymous_of_raws(s.drop_last()),
        }
    }
}

/// The quoted message of a protocol element list: the last one it carries,
/// if any.
pub open spec fn reply_of_raws(s: Seq<RawView>) -> Option<ReplyView>
    decreases s.len(),
{
    if s.len() == 0 {
        None
    } else {
        match s.last() {
            RawView::Reply(r) => Some(r),
            _ => reply_of_raws(s.drop_last()),
        }
    }
}

impl MessageElement {
    /// The content element that a protocol element stands for; `None` for
    /// the anonymous identity and the quoted message, which are metadata.
    pub fn from_raw(r: RawElement) -> (e: Option<MessageElement>)
        ensures
            is_meta(r@) ==> e is None,
            !is_meta(r@) ==> (e matches Some(x) && x@ == element_of_raw(r@)),
    {
        match r {
            RawElement::Text(t) => Some(MessageElement::Text(t)),
            RawElement::GroupImage(g) => Some(MessageElement::Image(Image::Group(g))),
            RawElement::FriendImage(f) => Some(MessageElement::Image(Image::Friend(f))),
            RawElement::At(a) => if a.target == 0 {
                Some(MessageElement::AtAll)
            } else {
                Some(MessageElement::At(a))
            },
            RawElement::Face(f) => Some(MessageElement::Face(f)),
            RawElement::Other(t) => Some(MessageElement::Unknown(t)),
            RawElement::Anonymous(_) => None,
            RawElement::Reply(_) => None,
        }
    }

    /// Appends the protocol elements that this element is sent as to `v`.
    pub fn push_to(self, v: &mut Vec<RawElement>)
        ensures
            raws_view(final(v)@) == raws_view(old(v)@) + raws_of_element(self@),
    {
        let ghost e = self@;
        match self {
            MessageElement::Text(t) => v.push(RawElement::Text(t)),
            MessageElement::Image(Image::Group(g)) => v.push(RawElement::GroupImage(g)),
            MessageElement::Image(Image::Friend(f)) => v.push(RawElement::FriendImage(f)),
            MessageElement::At(a) => v.push(RawElement::At(a)),
            MessageElement::AtAll => v.push(RawElement::At(At::all())),
            MessageElement::Face(f) => v.push(RawElement::Face(f)),
            MessageElement::Unknown(_) => {},
        }
        assert(raws_view(v@) =~= raws_view(old(v)@) + raws_of_element(e));
    }
}

/// A protocol element list with an anonymous identity put in front.
pub open spec fn anonymous_in_front(a: AnonymousView, v: Seq<RawView>) -> Seq<RawView> {
    seq![RawView::Anonymous(a)] + v
}

/// A protocol element list with a quotation put at its front, behind the
/// anonymous identity if the list starts with one.
pub open spec fn reply_in_front(r: ReplyView, v: Seq<RawView>) -> Seq<RawView> {
    if v.len() > 0 && v[0] is Anonymous {
        seq![v[0], RawView::Reply(r)] + v.drop_first()
    } else {
        seq![RawView::Reply(r)] + v
    }
}

impl Anonymous {
    /// Puts this anonymous identity in front of a protocol element list.
    pub fn push_to(self, v: &mut Vec<RawElement>)
        ensures
            raws_view(final(v)@) == anonymous_in_front(self@, raws_view(old(v)@)),
    {
        let ghost a = self@;
        v.insert(0, RawElement::Anonymous(self));
        assert(raws_view(v@) =~= anonymous_in_front(a, raws_view(old(v)@)));
    }
}

impl Reply {
    /// Puts this quotation at the front of a protocol element list, behind
    /// the anonymous identity if the list starts with one.
    pub fn push_to(self, v: &mut Vec<RawElement>)
        ensures
            raws_view(final(v)@) == reply_in_front(self@, raws_view(old(v)@)),
    {
        let ghost r = self@;
        let index: usize = if v.len() > 0 {
            match &v[0] {
                RawElement::Anonymous(_) => 1,
                _ => 0,
            }
        } else {
            0
        };
        v.insert(index, RawElement::Reply(self));
        assert(raws_view(v@) =~= reply_in_front(r, raws_view(old(v)@)));
    }
}

/// Whichever of the two is put in front of a list first, the anonymous
/// identity ends up first and the quotation second, ahead of the rest of the
/// list (for a list that does not already start with an identity).
pub proof fn lemma_metadata_front_order(a: AnonymousView, r: ReplyView, v: Seq<RawView>)
    requires
        !(v.len() > 0 && v[0] is Anonymous),
    ensures
        reply_in_front(r, anonymous_in_front(a, v)) == seq![RawView::Anonymous(a), RawView::Reply(r)] + v,
        anonymous_in_front(a, reply_in_front(r, v)) == seq![RawView::Anonymous(a), RawView::Reply(r)] + v,
{
    let w = anonymous_in_front(a, v);
    assert(w[0] == RawView::Anonymous(a));
    assert(w.drop_first() =~= v);
    assert(reply_in_front(r, w) =~= seq![RawView::Anonymous(a), RawView::Reply(r)] + v);
    assert(anonymous_in_front(a, reply_in_front(r, v)) =~= seq![RawView::Anonymous(a), RawView::Reply(r)] + v);
}

} // verus!
