//! The message model: the elements a message is made of, its metadata, and
//! the text that a message shows.

pub mod at;
pub mod face;
pub mod forward;
pub mod image;
pub mod meta;
pub mod raw;

use vstd::prelude::*;

use crate::message::at::{At, AtView};
use crate::message::face::{Face, FaceView};
use crate::message::image::{image_url, Image, ImageView};
use crate::message::meta::{
    empty_metadata, Anonymous, MessageMetadata, MetadataView, Reply, ReplyView,
};
use crate::message::raw::{
    anonymous_of_raws, content_of_raws, element_of_raw, is_meta, raws_of_element, raws_of_elements, raws_view,
    reply_of_raws, RawElement, RawView,
};
use crate::text::{int_text, push_i64, push_text};

verus! {

/// One element of a message's content.
pub enum MessageElement {
    Text(String),
    Image(Image),
    At(At),
    AtAll,
    Face(Face),
    /// An element of a kind that this library does not model, kept as the
    /// text that the protocol layer shows for it.
    Unknown(String),
}

/// The mathematical value of a [`MessageElement`].
pub ghost enum ElementView {
    Text(Seq<char>),
    Image(ImageView),
    At(AtView),
    AtAll,
    Face(FaceView),
    Unknown(Seq<char>),
}

impl View for MessageElement {
    type V = ElementView;

    open spec fn view(&self) -> ElementView {
        match self {
            MessageElement::Text(t) => ElementView::Text(t@),
            MessageElement::Image(i) => ElementView::Image(i@),
            MessageElement::At(a) => ElementView::At(a@),
            MessageElement::AtAll => ElementView::AtAll,
            MessageElement::Face(f) => ElementView::Face(f@),
            MessageElement::Unknown(t) => ElementView::Unknown(t@),
        }
    }
}

impl Clone for MessageElement {
    fn clone(&self) -> (r: Self)
        ensures
            r@ == self@,
    {
        match self {
            MessageElement::Text(t) => MessageElement::Text(t.clone()),
            MessageElement::Image(i) => MessageElement::Image(i.clone()),
            MessageElement::At(a) => MessageElement::At(a.clone()),
            MessageElement::AtAll => MessageElement::AtAll,
            MessageElement::Face(f) => MessageElement::Face(f.clone()),
            MessageElement::Unknown(t) => MessageElement::Unknown(t.clone()),
        }
    }
}

impl From<String> for MessageElement {
    fn from(s: String) -> (r: Self) {
        MessageElement::Text(s)
    }
}

impl vstd::std_specs::convert::FromSpecImpl<String> for MessageElement {
    open spec fn obeys_from_spec() -> bool {
        true
    }

    open spec fn from_spec(v: String) -> MessageElement {
        MessageElement::Text(v)
    }
}

impl From<At> for MessageElement {
    fn from(a: At) -> (r: Self) {
        MessageElement::At(a)
    }
}

impl vstd::std_specs::convert::FromSpecImpl<At> for MessageElement {
    open spec fn obeys_from_spec() -> bool {
        true
    }

    open spec fn from_spec(v: At) -> MessageElement {
        MessageElement::At(v)
    }
}

impl From<Image> for MessageElement {
    fn from(i: Image) -> (r: Self) {
        MessageElement::Image(i)
    }
}

impl vstd::std_specs::convert::FromSpecImpl<Image> for MessageElement {
    open spec fn obeys_from_spec() -> bool {
        true
    }

    open spec fn from_spec(v: Image) -> MessageElement {
        MessageElement::Image(v)
    }
}

/// The views of a sequence of elements.
pub open spec fn elements_view(s: Seq<MessageElement>) -> Seq<ElementView> {
    s.map_values(|e: MessageElement| e@)
}

/// Copies a list of elements.
pub fn clone_elements(v: &Vec<MessageElement>) -> (r: Vec<MessageElement>)
    ensures
        elements_view(r@) == elements_view(v@),
{
    let r = v.clone();
    assert(elements_view(r@) =~= elements_view(v@)) by {
        assert forall|i: int| 0 <= i < r@.len() implies r@[i]@ == v@[i]@ by {
            assert(cloned::<MessageElement>(v[i], r[i]));
        }
    }
    r
}

/// The text that an element shows: its own text, or a tag such as
/// `$[At:name(id)]` for what is not text.
pub open spec fn element_text(e: ElementView) -> Seq<char> {
    match e {
        ElementView::Text(t) => t,
        ElementView::Image(i) => "$[Image:"@ + image_url(i) + "]"@,
        ElementView::At(a) => "$[At:"@ + a.display + "("@ + int_text(a.target as int) + ")]"@,
        ElementView::AtAll => "$[AtAll]"@,
        ElementView::Face(f) => "$[Face:"@ + f.name + "]"@,
        ElementView::Unknown(t) => t,
    }
}

/// The text of a sequence of elements: the texts of the elements, one after
/// the other.
pub open spec fn elements_text(s: Seq<ElementView>) -> Seq<char>
    decreases s.len(),
{
    if s.len() == 0 {
        Seq::empty()
    } else {
        elements_text(s.drop_last()) + element_text(s.last())
    }
}

/// An image element shows the address from which the image is downloaded,
/// never its file path: for a private-chat image the server's own path
/// under `https://c2cpicdw.qpic.cn` when there is one, else the offline
/// picture path built from the download path or, lacking that, the
/// resource id; for a group image the server's own path under
/// `https://gchat.qpic.cn` when there is one, else the path built from the
/// upper-case hex of its MD5 digest.
pub proof fn lemma_image_text_shows_download_address(i: ImageView)
    ensures
        element_text(ElementView::Image(i)) == "$[Image:"@ + image_url(i) + "]"@,
        i matches ImageView::Friend(f) ==> element_text(ElementView::Image(i)) == "$[Image:"@ + (
        if f.orig_url.len() > 0 {
            "https://c2cpicdw.qpic.cn"@ + f.orig_url
        } else if f.download_path.len() > 0 {
            "https://c2cpicdw.qpic.cn/offpic_new/0/"@ + f.download_path + "/0?term=3"@
        } else {
            "https://c2cpicdw.qpic.cn/offpic_new/0/"@ + f.res_id + "/0?term=3"@
        }) + "]"@,
        i matches ImageView::Group(g) ==> element_text(ElementView::Image(i)) == "$[Image:"@ + (
        match g.orig_url {
            Some(u) => "https://gchat.qpic.cn"@ + u,
            None => "https://gchat.qpic.cn/gchatpic_new/0/0-0-"@ + crate::text::hex_upper(g.md5)
                + "/0?term=2"@,
        }) + "]"@,
{
}

impl MessageElement {
    /// Appends the text that this element shows to `s`.
    pub fn push_text_to(&self, s: &mut String)
        ensures
            final(s)@ == old(s)@ + element_text(self@),
    {
        match self {
            MessageElement::Text(t) => push_text(s, t.as_str()),
            MessageElement::Image(img) => {
                push_text(s, "$[Image:");
                img.push_url(s);
                push_text(s, "]");
            },
            MessageElement::At(a) => {
                push_text(s, "$[At:");
                push_text(s, a.display.as_str());
                push_text(s, "(");
                push_i64(s, a.target);
                push_text(s, ")]");
            },
            MessageElement::AtAll => push_text(s, "$[AtAll]"),
            MessageElement::Face(f) => {
                push_text(s, "$[Face:");
                push_text(s, f.name.as_str());
                push_text(s, "]");
            },
            MessageElement::Unknown(t) => push_text(s, t.as_str()),
        }
        assert(s@ =~= old(s)@ + element_text(self@));
    }

    /// The text that this element shows.
    pub fn to_string(&self) -> (r: String)
        ensures
            r@ == element_text(self@),
    {
        let mut s = String::new();
        self.push_text_to(&mut s);
        assert(s@ =~= element_text(self@));
        s
    }
}

/// A message: its metadata and the elements of its content.
pub struct MessageChain {
    meta: MessageMetadata,
    elements: Vec<MessageElement>,
}

/// The mathematical value of a [`MessageChain`].
pub ghost struct ChainView {
    pub meta: MetadataView,
    pub elements: Seq<ElementView>,
}

impl View for MessageChain {
    type V = ChainView;

    closed spec fn view(&self) -> ChainView {
        ChainView { meta: self.meta@, elements: elements_view(self.elements@) }
    }
}

impl Clone for MessageChain {
    fn clone(&self) -> (r: Self)
        ensures
            r@ == self@,
    {
        MessageChain { meta: self.meta.clone(), elements: clone_elements(&self.elements) }
    }
}

impl Default for MessageChain {
    fn default() -> (r: Self)
        ensures
            r@ == (ChainView { meta: empty_metadata(), elements: Seq::empty() }),
    {
        let r = MessageChain { meta: MessageMetadata::default(), elements: Vec::new() };
        assert(elements_view(r.elements@) =~= Seq::empty());
        r
    }
}

impl MessageChain {
    /// The metadata of this message.
    pub fn metadata(&self) -> (r: &MessageMetadata)
        ensures
            r@ == self@.meta,
    {
        &self.meta
    }

    /// The metadata of this message, to change in place.
    pub fn metadata_mut(&mut self) -> (r: &mut MessageMetadata)
        ensures
            r@ == old(self)@.meta,
            final(self)@ == (ChainView { meta: final(r)@, elements: old(self)@.elements }),
    {
        &mut self.meta
    }

    /// The elements of this message's content, in order.
    pub fn iter(&self) -> (r: std::slice::Iter<'_, MessageElement>)
        ensures
            elements_view(vstd::std_specs::slice::into_iter_elts(r)) == self@.elements,
    {
        broadcast use vstd::std_specs::slice::axiom_spec_slice_iter;

        let r = self.elements.iter();
        assert(vstd::std_specs::iter::IteratorSpec::remaining(&r).unref() =~= self.elements@);
        r
    }

    /// The elements of this message's content, taken out of it.
    pub fn into_elements(self) -> (r: Vec<MessageElement>)
        ensures
            elements_view(r@) == self@.elements,
    {
        self.elements
    }

    /// The elements of this message's content.
    pub fn elements(&self) -> (r: &[MessageElement])
        ensures
            elements_view(r@) == self@.elements,
    {
        self.elements.as_slice()
    }

    /// A message with the given content and empty metadata.
    pub fn from_elements(elements: Vec<MessageElement>) -> (r: MessageChain)
        ensures
            r@ == (ChainView { meta: empty_metadata(), elements: elements_view(elements@) }),
    {
        MessageChain { meta: MessageMetadata::default(), elements }
    }

    /// The message that this message quotes, if any.
    pub fn referred(&self) -> (r: Option<&Reply>)
        ensures
            match r {
                Some(x) => self@.meta.reply == Some(x@),
                None => self@.meta.reply is None,
            },
    {
        self.meta.reply.as_ref()
    }

    /// A quotation of this message, which a reply to it carries: its first
    /// sequence number, its sender, its time and a copy of its content.
    pub fn reply(&self) -> (r: Reply)
        requires
            self@.meta.seqs.len() > 0,
        ensures
            r@ == (ReplyView {
                reply_seq: self@.meta.seqs[0],
                sender: self@.meta.sender,
                time: self@.meta.time,
                elements: self@.elements,
            }),
    {
        Reply {
            reply_seq: self.meta.seqs[0],
            sender: self.meta.sender,
            time: self.meta.time,
            elements: clone_elements(&self.elements),
        }
    }

    /// Turns this message into a quotation of itself.
    pub fn into_reply(self) -> (r: Reply)
        requires
            self@.meta.seqs.len() > 0,
        ensures
            r@ == (ReplyView {
                reply_seq: self@.meta.seqs[0],
                sender: self@.meta.sender,
                time: self@.meta.time,
                elements: self@.elements,
            }),
    {
        Reply {
            reply_seq: self.meta.seqs[0],
            sender: self.meta.sender,
            time: self.meta.time,
            elements: self.elements,
        }
    }

    /// Makes this message quote `reply`.
    pub fn with_reply(&mut self, reply: Reply)
        ensures
            final(self)@ == (ChainView {
                meta: MetadataView { reply: Some(reply@), ..old(self)@.meta },
                elements: old(self)@.elements,
            }),
    {
        self.meta.reply = Some(reply);
    }

    /// Makes this message carry the anonymous identity `ano`.
    pub fn with_anonymous(&mut self, ano: Anonymous)
        ensures
            final(self)@ == (ChainView {
                meta: MetadataView { anonymous: Some(ano@), ..old(self)@.meta },
                elements: old(self)@.elements,
            }),
    {
        self.meta.anonymous = Some(ano);
    }

    /// The text that this message shows: the texts of its elements, one
    /// after the other.
    pub fn to_string(&self) -> (r: String)
        ensures
            r@ == elements_text(self@.elements),
    {
        let mut s = String::new();
        let mut i: usize = 0;
        while i < self.elements.len()
            invariant
                0 <= i <= self.elements@.len(),
                s@ == elements_text(elements_view(self.elements@.take(i as int))),
            decreases self.elements.len() - i,
        {
            self.elements[i].push_text_to(&mut s);
            proof {
                let t = elements_view(self.elements@.take(i + 1));
                assert(t.drop_last() =~= elements_view(self.elements@.take(i as int)));
                assert(t.last() == self.elements@[i as int]@);
            }
            i = i + 1;
        }
        assert(self.elements@.take(self.elements@.len() as int) =~= self.elements@);
        s
    }
}

/// The protocol elements that a message is sent as: the quoted message
/// first, then the anonymous identity, then the content.
pub open spec fn chain_raws(c: ChainView) -> Seq<RawView> {
    (match c.meta.reply {
        Some(r) => seq![RawView::Reply(r)],
        None => Seq::empty(),
    }) + (match c.meta.anonymous {
        Some(a) => seq![RawView::Anonymous(a)],
        None => Seq::empty(),
    }) + raws_of_elements(c.elements)
}

/// The message that a protocol element list carries: its content, its last
/// anonymous identity and its last quoted message, with no other metadata.
pub open spec fn chain_of_raws(s: Seq<RawView>) -> ChainView {
    ChainView {
        meta: MetadataView {
            anonymous: anonymous_of_raws(s),
            reply: reply_of_raws(s),
            ..empty_metadata()
        },
        elements: content_of_raws(s),
    }
}

impl MessageChain {
    /// The message that a protocol element list carries.
    pub fn from_raw(raw: Vec<RawElement>) -> (c: MessageChain)
        ensures
            c@ == chain_of_raws(raws_view(raw@)),
    {
        let ghost all = raw@;
        let mut meta = MessageMetadata::default();
        let mut elements: Vec<MessageElement> = Vec::new();
        for r in it: raw.into_iter()
            invariant
                it.seq() == all,
                meta@ == chain_of_raws(raws_view(all.take(it.index() as int))).meta,
                elements_view(elements@) == content_of_raws(raws_view(all.take(it.index() as int))),
        {
            let ghost i = it.index() as int;
            let ghost rv = r@;
            proof {
                let t = raws_view(all.take(i + 1));
                assert(t.drop_last() =~= raws_view(all.take(i)));
                assert(t.last() == rv);
            }
            match r {
                RawElement::Anonymous(a) => {
                    meta.anonymous = Some(a);
                },
                RawElement::Reply(x) => {
                    meta.reply = Some(x);
                },
                other => {
                    let e = MessageElement::from_raw(other);
                    match e {
                        Some(e) => {
                            elements.push(e);
                        },
                        None => {},
                    }
                    assert(elements_view(elements@) =~= content_of_raws(
                        raws_view(all.take(i + 1)),
                    ));
                },
            }
        }
        assert(all.take(all.len() as int) =~= all);
        MessageChain { meta, elements }
    }

    /// The protocol elements that this message is sent as. Elements of an
    /// unknown kind are not sent; the sequence numbers, time and sender are
    /// not part of the list.
    pub fn into_raw(self) -> (v: Vec<RawElement>)
        ensures
            raws_view(v@) == chain_raws(self@),
    {
        let ghost c = self@;
        let MessageChain { meta, elements } = self;
        let mut v: Vec<RawElement> = Vec::new();
        match meta.reply {
            Some(r) => v.push(RawElement::Reply(r)),
            None => {},
        }
        match meta.anonymous {
            Some(a) => v.push(RawElement::Anonymous(a)),
            None => {},
        }
        let ghost head = raws_view(v@);
        assert(head =~= (match c.meta.reply {
            Some(r) => seq![RawView::Reply(r)],
            None => Seq::empty(),
        }) + (match c.meta.anonymous {
            Some(a) => seq![RawView::Anonymous(a)],
            None => Seq::empty(),
        }));
        let ghost all = elements@;
        for e in it: elements.into_iter()
            invariant
                it.seq() == all,
                elements_view(all) == c.elements,
                raws_view(v@) == head + raws_of_elements(elements_view(all.take(it.index() as int))),
        {
            let ghost i = it.index() as int;
            proof {
                let t = elements_view(all.take(i + 1));
                assert(t.drop_last() =~= elements_view(all.take(i)));
                assert(t.last() == e@);
            }
            e.push_to(&mut v);
            assert(raws_view(v@) =~= head + raws_of_elements(elements_view(all.take(i + 1))));
        }
        assert(all.take(all.len() as int) =~= all);
        v
    }
}

/// Whether a content element survives being sent and received unchanged:
/// elements of an unknown kind are not sent, and a mention of target 0 comes
/// back as the mention of every member.
pub open spec fn survives_transport(e: ElementView) -> bool {
    &&& !(e is Unknown)
    &&& !(e matches ElementView::At(a) && a.target == 0)
}

proof fn lemma_content_concat(a: Seq<RawView>, b: Seq<RawView>)
    ensures
        content_of_raws(a + b) == content_of_raws(a) + content_of_raws(b),
    decreases b.len(),
{
    if b.len() == 0 {
        assert(a + b =~= a);
        assert(content_of_raws(a) + content_of_raws(b) =~= content_of_raws(a));
    } else {
        lemma_content_concat(a, b.drop_last());
        assert((a + b).drop_last() =~= a + b.drop_last());
        assert((a + b).last() == b.last());
        if is_meta(b.last()) {
        } else {
            assert(content_of_raws(a) + content_of_raws(b) =~= (content_of_raws(a)
                + content_of_raws(b.drop_last())).push(element_of_raw(b.last())));
        }
    }
}

proof fn lemma_meta_free_tail(a: Seq<RawView>, b: Seq<RawView>)
    requires
        forall|i: int| 0 <= i < b.len() ==> !is_meta(#[trigger] b[i]),
    ensures
        anonymous_of_raws(a + b) == anonymous_of_raws(a),
        reply_of_raws(a + b) == reply_of_raws(a),
    decreases b.len(),
{
    if b.len() == 0 {
        assert(a + b =~= a);
    } else {
        assert(!is_meta(b[b.len() - 1]));
        lemma_meta_free_tail(a, b.drop_last());
        assert((a + b).drop_last() =~= a + b.drop_last());
        assert((a + b).last() == b.last());
    }
}

proof fn lemma_element_round_trip(e: ElementView)
    requires
        survives_transport(e),
    ensures
        raws_of_element(e).len() == 1,
        !is_meta(raws_of_element(e)[0]),
        element_of_raw(raws_of_element(e)[0]) == e,
{
}

proof fn lemma_elements_round_trip(s: Seq<ElementView>)
    requires
        forall|i: int| 0 <= i < s.len() ==> survives_transport(#[trigger] s[i]),
    ensures
        content_of_raws(raws_of_elements(s)) == s,
        forall|i: int|
            0 <= i < raws_of_elements(s).len() ==> !is_meta(#[trigger] raws_of_elements(s)[i]),
    decreases s.len(),
{
    if s.len() > 0 {
        let p = s.drop_last();
        assert forall|i: int| 0 <= i < p.len() implies survives_transport(#[trigger] p[i]) by {
            assert(p[i] == s[i]);
        }
        lemma_elements_round_trip(p);
        let e = s.last();
        assert(survives_transport(s[s.len() - 1]));
        lemma_content_concat(raws_of_elements(p), raws_of_element(e));
        let one = raws_of_element(e);
        lemma_element_round_trip(e);
        assert(one.drop_last() =~= Seq::<RawView>::empty());
        assert(one.last() == one[0]);
        assert(content_of_raws(one.drop_last()) =~= Seq::<ElementView>::empty());
        assert(content_of_raws(one) =~= seq![e]);
        assert(s =~= p.push(e));
        let all = raws_of_elements(s);
        assert(all =~= raws_of_elements(p) + one);
        assert forall|i: int| 0 <= i < all.len() implies !is_meta(#[trigger] all[i]) by {
            if i < raws_of_elements(p).len() {
                assert(all[i] == raws_of_elements(p)[i]);
            } else {
                assert(all[i] == one[0]);
            }
        }
    }
}

/// Sending a message and receiving it back gives the same content, the same
/// anonymous identity and the same quoted message, as long as every element
/// survives being sent (no element of an unknown kind, no mention of target
/// 0).
pub proof fn lemma_transport_round_trip(c: ChainView)
    requires
        forall|i: int| 0 <= i < c.elements.len() ==> survives_transport(#[trigger] c.elements[i]),
    ensures
        chain_of_raws(chain_raws(c)).elements == c.elements,
        chain_of_raws(chain_raws(c)).meta.anonymous == c.meta.anonymous,
        chain_of_raws(chain_raws(c)).meta.reply == c.meta.reply,
{
    let rh: Seq<RawView> = match c.meta.reply {
        Some(r) => seq![RawView::Reply(r)],
        None => Seq::empty(),
    };
    let ah: Seq<RawView> = match c.meta.anonymous {
        Some(a) => seq![RawView::Anonymous(a)],
        None => Seq::empty(),
    };
    let head = rh + ah;
    let body = raws_of_elements(c.elements);
    lemma_elements_round_trip(c.elements);
    lemma_content_concat(head, body);
    lemma_meta_free_tail(head, body);
    assert(chain_raws(c) == head + body);
    reveal_with_fuel(content_of_raws, 3);
    reveal_with_fuel(anonymous_of_raws, 3);
    reveal_with_fuel(reply_of_raws, 3);
    match c.meta.reply {
        Some(r) => match c.meta.anonymous {
            Some(a) => {
                assert(head =~= seq![RawView::Reply(r), RawView::Anonymous(a)]);
                assert(head.drop_last() =~= seq![RawView::Reply(r)]);
                assert(head.drop_last().drop_last() =~= Seq::<RawView>::empty());
            },
            None => {
                assert(head =~= seq![RawView::Reply(r)]);
                assert(head.drop_last() =~= Seq::<RawView>::empty());
            },
        },
        None => match c.meta.anonymous {
            Some(a) => {
                assert(head =~= seq![RawView::Anonymous(a)]);
                assert(head.drop_last() =~= Seq::<RawView>::empty());
            },
            None => {
                assert(head =~= Seq::<RawView>::empty());
            },
        },
    }
    assert(content_of_raws(head) =~= Seq::<ElementView>::empty());
    assert(content_of_raws(head) + content_of_raws(body) =~= c.elements);
}

} // verus!
