//! Chatting through the Moli service: when the bot answers a group message,
//! what it sends to the service, and how it turns the service's answer into
//! a message.

use vstd::prelude::*;

use crate::message::raw::{raws_view, RawElement, RawView};
use crate::text::{contains, push_text, same_text, seq_contains};

verus! {

/// A group message as the Moli service receives it.
pub struct MoliMessage {
    pub content: String,
    /// The kind of chat: 2 for a group.
    pub chat_type: u8,
    pub from: i64,
    pub from_name: String,
    pub to: i64,
    pub to_name: String,
}

/// One part of the service's answer: `typed` 1 is text, 2 an image whose
/// path is `content`.
pub struct MoliData {
    pub content: String,
    pub typed: u8,
    pub remark: Option<String>,
}

/// The service's answer; `code` "00000" means success.
pub struct MoliResponse {
    pub code: String,
    pub message: String,
    pub plugin: Option<String>,
    pub data: Vec<MoliData>,
}

/// How the bot uses the service.
pub struct MoliConfig {
    pub api_key: String,
    pub api_secret: String,
    /// The name that, written in a message, calls the bot.
    pub name: String,
    /// How many further messages of the same sender the bot answers.
    pub reply_times: u8,
    /// Whether the answer quotes the message it answers.
    pub do_quote_reply: bool,
    pub do_print_results_on_console: bool,
    pub default_reply: Vec<String>,
    pub timeout_reply: Vec<String>,
}

/// The texts of a list of strings.
pub open spec fn texts_view(v: Seq<String>) -> Seq<Seq<char>> {
    v.map_values(|s: String| s@)
}

/// The texts of a list of string slices.
pub open spec fn strs_view(v: Seq<&str>) -> Seq<Seq<char>> {
    v.map_values(|s: &str| s@)
}

fn strings_of(items: &[&str]) -> (r: Vec<String>)
    ensures
        texts_view(r@) == strs_view(items@),
{
    let mut r: Vec<String> = Vec::new();
    let mut i: usize = 0;
    while i < items.len()
        invariant
            0 <= i <= items@.len(),
            r@.len() == i,
            texts_view(r@) == strs_view(items@.take(i as int)),
        decreases items.len() - i,
    {
        let mut s = String::new();
        push_text(&mut s, items[i]);
        assert(s@ =~= items@[i as int]@);
        let ghost old_r = r@;
        r.push(s);
        proof {
            assert(old_r.len() == i);
            assert(r@ == old_r.push(s));
            let a = texts_view(r@);
            let b = strs_view(items@.take(i + 1));
            assert(a.len() == b.len());
            assert forall|k: int| 0 <= k < a.len() implies a[k] == b[k] by {
                if k < i {
                    assert(a[k] == texts_view(old_r)[k]);
                    assert(b[k] == strs_view(items@.take(i as int))[k]);
                }
            }
            assert(a =~= b);
        }
        i = i + 1;
    }
    assert(items@.take(items@.len() as int) =~= items@);
    r
}

impl Default for MoliConfig {
    fn default() -> (r: Self)
        ensures
            r.api_key@.len() == 0,
            r.api_secret@.len() == 0,
            r.name@ == "亚托莉"@,
            r.reply_times == 0,
            !r.do_quote_reply,
            !r.do_print_results_on_console,
            texts_view(r.default_reply@) == seq!["？"@, "怎么"@, "怎么了"@, "什么？"@, "在"@, "嗯？"@],
            texts_view(r.timeout_reply@) == seq!["没事我就溜了"@, "emmmmm"@, "......"@, "溜了"@, "？"@],
    {
        let mut name = String::new();
        push_text(&mut name, "亚托莉");
        let default_reply = strings_of(&["？", "怎么", "怎么了", "什么？", "在", "嗯？"]);
        let timeout_reply = strings_of(&["没事我就溜了", "emmmmm", "......", "溜了", "？"]);
        assert(texts_view(default_reply@) =~= seq!["？"@, "怎么"@, "怎么了"@, "什么？"@, "在"@, "嗯？"@]);
        assert(texts_view(timeout_reply@) =~= seq!["没事我就溜了"@, "emmmmm"@, "......"@, "溜了"@, "？"@]);
        MoliConfig {
            api_key: String::new(),
            api_secret: String::new(),
            name,
            reply_times: 0,
            do_quote_reply: false,
            do_print_results_on_console: false,
            default_reply,
            timeout_reply,
        }
    }
}

/// The text that the service receives for one protocol element: text as it
/// is, a mention (of a member or of everyone) by its display text, a group
/// image as "[图片]", nothing else.
pub open spec fn moli_element_text(e: RawView) -> Seq<char> {
    match e {
        RawView::Text(t) => t,
        RawView::At(a) => a.display,
        RawView::GroupImage(_) => "[图片]"@,
        _ => Seq::empty(),
    }
}

/// The text that the service receives for a message.
pub open spec fn moli_content(s: Seq<RawView>) -> Seq<char>
    decreases s.len(),
{
    if s.len() == 0 {
        Seq::empty()
    } else {
        moli_content(s.drop_last()) + moli_element_text(s.last())
    }
}

impl MoliMessage {
    /// The request for a group message, given by its protocol elements,
    /// sent by `from_uin`, shown as `sender_name`, in group `group_code`
    /// named `group_name`.
    pub fn from_group_message(
        elements: &[RawElement],
        from_uin: i64,
        group_code: i64,
        group_name: String,
        sender_name: String,
    ) -> (r: MoliMessage)
        ensures
            r.content@ == moli_content(raws_view(elements@)),
            r.chat_type == 2,
            r.from == from_uin,
            r.from_name == sender_name,
            r.to == group_code,
            r.to_name == group_name,
    {
        let mut content = String::new();
        let mut i: usize = 0;
        while i < elements.len()
            invariant
                0 <= i <= elements@.len(),
                content@ == moli_content(raws_view(elements@.take(i as int))),
            decreases elements.len() - i,
        {
            let ghost before = content@;
            match &elements[i] {
                RawElement::Text(s) => push_text(&mut content, s.as_str()),
                RawElement::At(at) => push_text(&mut content, at.display.as_str()),
                RawElement::GroupImage(_) => push_text(&mut content, "[图片]"),
                _ => {
                    assert(content@ =~= before + Seq::<char>::empty());
                },
            }
            proof {
                let t = raws_view(elements@.take(i + 1));
                assert(t.drop_last() =~= raws_view(elements@.take(i as int)));
                assert(t.last() == elements@[i as int]@);
            }
            i = i + 1;
        }
        assert(elements@.take(elements@.len() as int) =~= elements@);
        MoliMessage {
            content,
            chat_type: 2,
            from: from_uin,
            from_name: sender_name,
            to: group_code,
            to_name: group_name,
        }
    }
}

/// Whether a protocol element calls the bot: a mention of the bot's
/// account (the mention of every member being one of account 0), or text
/// containing the bot's name.
pub open spec fn calls_bot(e: RawView, bot_id: i64, name: Seq<char>) -> bool {
    match e {
        RawView::At(a) => a.target == bot_id,
        RawView::Text(t) => seq_contains(t, name),
        _ => false,
    }
}

/// Whether the bot answers a group message, given by its protocol
/// elements: when some element of it calls the bot.
pub fn mentions_bot(elements: &[RawElement], bot_id: i64, name: &str) -> (r: bool)
    ensures
        r == exists|i: int|
            0 <= i < elements@.len() && calls_bot(#[trigger] elements@[i]@, bot_id, name@),
        r == exists|i: int|
            0 <= i < elements@.len() && match #[trigger] elements@[i]@ {
                RawView::At(a) => a.target == bot_id,
                RawView::Text(t) => seq_contains(t, name@),
                _ => false,
            },
{
    let mut i: usize = 0;
    while i < elements.len()
        invariant
            0 <= i <= elements@.len(),
            forall|k: int| 0 <= k < i ==> !calls_bot(#[trigger] elements@[k]@, bot_id, name@),
        decreases elements.len() - i,
    {
        let hit = match &elements[i] {
            RawElement::At(at) => at.target == bot_id,
            RawElement::Text(s) => contains(s.as_str(), name),
            _ => false,
        };
        if hit {
            assert(calls_bot(elements@[i as int]@, bot_id, name@));
            return true;
        }
        i = i + 1;
    }
    false
}

/// The request text grows element by element: a text element adds its
/// text, a mention (of a member or of everyone) adds its display text, a
/// group image adds "[图片]", and every other element (a face, a private
/// image, a quotation, an anonymous identity, anything else) adds nothing.
pub proof fn lemma_moli_content_step(s: Seq<RawView>, e: RawView)
    ensures
        e matches RawView::Text(t) ==> moli_content(s.push(e)) == moli_content(s) + t,
        e matches RawView::At(a) ==> moli_content(s.push(e)) == moli_content(s) + a.display,
        e is GroupImage ==> moli_content(s.push(e)) == moli_content(s) + "[图片]"@,
        !(e is Text || e is At || e is GroupImage) ==> moli_content(s.push(e)) == moli_content(s),
{
    assert(s.push(e).drop_last() =~= s);
    assert(s.push(e).last() == e);
    if !(e is Text || e is At || e is GroupImage) {
        assert(moli_content(s) + Seq::<char>::empty() =~= moli_content(s));
    }
}

/// A mention calls the bot exactly when it names the bot's account,
/// whatever its display text says; text calls the bot exactly when it
/// contains the bot's name; no other element calls the bot.
pub proof fn lemma_calls_bot_by_kind(e: RawView, bot_id: i64, name: Seq<char>)
    ensures
        e matches RawView::At(a) ==> (calls_bot(e, bot_id, name) <==> a.target == bot_id),
        e matches RawView::Text(t) ==> (calls_bot(e, bot_id, name) <==> seq_contains(t, name)),
        !(e is At || e is Text) ==> !calls_bot(e, bot_id, name),
{
}

/// A part of the bot's answer.
pub enum MoliReplyPart {
    Text(String),
    /// An image to download from the given address and send.
    ImageUrl(String),
}

/// The mathematical value of a [`MoliReplyPart`].
pub ghost enum MoliReplyPartView {
    Text(Seq<char>),
    ImageUrl(Seq<char>),
}

impl View for MoliReplyPart {
    type V = MoliReplyPartView;

    open spec fn view(&self) -> MoliReplyPartView {
        match self {
            MoliReplyPart::Text(t) => MoliReplyPartView::Text(t@),
            MoliReplyPart::ImageUrl(u) => MoliReplyPartView::ImageUrl(u@),
        }
    }
}

/// The parts of the answer that the service's data gives: text for kind 1,
/// the image at `https://files.molicloud.com/<content>` for kind 2, nothing
/// for other kinds.
pub open spec fn reply_parts_spec(data: Seq<MoliData>) -> Seq<MoliReplyPartView>
    decreases data.len(),
{
    if data.len() == 0 {
        Seq::empty()
    } else {
        let d = data.last();
        reply_parts_spec(data.drop_last()) + if d.typed == 1 {
            seq![MoliReplyPartView::Text(d.content@)]
        } else if d.typed == 2 {
            seq![MoliReplyPartView::ImageUrl("https://files.molicloud.com/"@ + d.content@)]
        } else {
            Seq::empty()
        }
    }
}

/// The views of a list of answer parts.
pub open spec fn parts_view(v: Seq<MoliReplyPart>) -> Seq<MoliReplyPartView> {
    v.map_values(|p: MoliReplyPart| p@)
}

/// What the bot answers with, from the service's answer: nothing when the
/// service reports a failure (a code other than "00000"), else the parts
/// of its data in order.
pub fn reply_parts(resp: &MoliResponse) -> (r: Option<Vec<MoliReplyPart>>)
    ensures
        resp.code@ != "00000"@ ==> r is None,
        resp.code@ == "00000"@ ==> (r matches Some(v) && parts_view(v@) == reply_parts_spec(
            resp.data@,
        )),
{
    if !same_text(resp.code.as_str(), "00000") {
        return None;
    }
    let mut parts: Vec<MoliReplyPart> = Vec::new();
    let mut i: usize = 0;
    while i < resp.data.len()
        invariant
            0 <= i <= resp.data@.len(),
            parts_view(parts@) == reply_parts_spec(resp.data@.take(i as int)),
        decreases resp.data.len() - i,
    {
        let d = &resp.data[i];
        proof {
            let t = resp.data@.take(i + 1);
            assert(t.drop_last() =~= resp.data@.take(i as int));
            assert(t.last() == *d);
        }
        if d.typed == 1 {
            let mut s = String::new();
            push_text(&mut s, d.content.as_str());
            parts.push(MoliReplyPart::Text(s));
            assert(parts_view(parts@) =~= reply_parts_spec(resp.data@.take(i + 1)));
        } else if d.typed == 2 {
            let mut s = String::new();
            push_text(&mut s, "https://files.molicloud.com/");
            push_text(&mut s, d.content.as_str());
            parts.push(MoliReplyPart::ImageUrl(s));
            assert(parts_view(parts@) =~= reply_parts_spec(resp.data@.take(i + 1)));
        } else {
            assert(parts_view(parts@) =~= reply_parts_spec(resp.data@.take(i + 1)));
        }
        i = i + 1;
    }
    assert(resp.data@.take(resp.data@.len() as int) =~= resp.data@);
    Some(parts)
}

/// What the chat does after answering a message.
#[derive(Clone, Copy, PartialEq, Eq, Structural, Debug)]
pub enum MoliAfterAnswer {
    /// Wait for the sender's next message in the group, and answer it.
    WaitForNext,
    /// The conversation is over.
    Stop,
}

/// What the chat does after it has answered `answered` messages of one
/// sender: it answers the message that called it and then up to
/// `reply_times` further messages of the same sender, so it waits for
/// another while fewer than `1 + reply_times` are answered. A wait that
/// times out ends the conversation.
pub fn moli_after_answer(answered: u16, reply_times: u8) -> (r: MoliAfterAnswer)
    ensures
        answered <= reply_times ==> r == MoliAfterAnswer::WaitForNext,
        answered > reply_times ==> r == MoliAfterAnswer::Stop,
{
    if answered <= reply_times as u16 {
        MoliAfterAnswer::WaitForNext
    } else {
        MoliAfterAnswer::Stop
    }
}

} // verus!
