use atri_bot::message::at::At;
use atri_bot::message::face::Face;
use atri_bot::message::forward::{ForwardMessage, ForwardNode};
use atri_bot::message::image::{FriendImage, GroupImage, Image};
use atri_bot::message::meta::{Anonymous, MessageMetadata, Reply};
use atri_bot::message::raw::RawElement;
use atri_bot::message::{MessageChain, MessageElement};

fn group_image(orig_url: Option<&str>, md5: Vec<u8>) -> GroupImage {
    GroupImage {
        file_path: "{ABC}.png".to_string(),
        file_id: 7,
        size: 10,
        width: 20,
        height: 30,
        md5,
        orig_url: orig_url.map(|s| s.to_string()),
        image_type: 1000,
        signature: vec![],
        server_ip: 0,
        server_port: 0,
    }
}

fn friend_image(orig: &str, download: &str, res: &str) -> FriendImage {
    FriendImage {
        res_id: res.to_string(),
        file_path: "f.jpg".to_string(),
        md5: vec![1, 2],
        size: 1,
        width: 2,
        height: 3,
        image_type: 0,
        orig_url: orig.to_string(),
        download_path: download.to_string(),
    }
}

fn anonymous(nick: &str) -> Anonymous {
    Anonymous {
        anon_id: vec![9, 9],
        nick: nick.to_string(),
        portrait_index: 1,
        bubble_index: 2,
        expire_time: 3,
        color: "red".to_string(),
    }
}

#[test]
fn at_all_targets_everyone() {
    let a = At::all();
    assert_eq!(a.target, 0);
    assert_eq!(a.display, "");
}

#[test]
fn element_texts() {
    assert_eq!(MessageElement::Text("hi".to_string()).to_string(), "hi");
    let at = MessageElement::At(At { target: 123, display: "Bob".to_string() });
    assert_eq!(at.to_string(), "$[At:Bob(123)]");
    let neg = MessageElement::At(At { target: -5, display: "x".to_string() });
    assert_eq!(neg.to_string(), "$[At:x(-5)]");
    let min = MessageElement::At(At { target: i64::MIN, display: String::new() });
    assert_eq!(min.to_string(), "$[At:(-9223372036854775808)]");
    let zero = MessageElement::At(At { target: 0, display: "z".to_string() });
    assert_eq!(zero.to_string(), "$[At:z(0)]");
    assert_eq!(MessageElement::AtAll.to_string(), "$[AtAll]");
    let face = MessageElement::Face(Face { index: 1, name: "smile".to_string() });
    assert_eq!(face.to_string(), "$[Face:smile]");
    assert_eq!(MessageElement::Unknown("[Dice]".to_string()).to_string(), "[Dice]");
}

#[test]
fn image_urls() {
    let g = group_image(Some("/gchatpic_new/1/abc/0"), vec![0xab, 0x01]);
    assert_eq!(g.url(), "https://gchat.qpic.cn/gchatpic_new/1/abc/0");
    let g = group_image(None, vec![0xab, 0x01, 0xf0]);
    assert_eq!(g.url(), "https://gchat.qpic.cn/gchatpic_new/0/0-0-AB01F0/0?term=2");
    let img = MessageElement::Image(Image::Group(g));
    assert_eq!(
        img.to_string(),
        "$[Image:https://gchat.qpic.cn/gchatpic_new/0/0-0-AB01F0/0?term=2]"
    );
    assert_eq!(friend_image("/x/y", "dl", "res").url(), "https://c2cpicdw.qpic.cn/x/y");
    assert_eq!(
        friend_image("", "dl", "res").url(),
        "https://c2cpicdw.qpic.cn/offpic_new/0/dl/0?term=3"
    );
    assert_eq!(
        friend_image("", "", "res").url(),
        "https://c2cpicdw.qpic.cn/offpic_new/0/res/0?term=3"
    );
    let i = Image::Friend(friend_image("", "", "res"));
    assert_eq!(i.id(), "f.jpg");
    assert_eq!(i.url(), "https://c2cpicdw.qpic.cn/offpic_new/0/res/0?term=3");
}

#[test]
fn chain_text_is_elements_in_order() {
    let chain = MessageChain::from_elements(vec![
        MessageElement::Text("hello ".to_string()),
        MessageElement::At(At { target: 42, display: "@Ann".to_string() }),
        MessageElement::AtAll,
    ]);
    assert_eq!(chain.to_string(), "hello $[At:@Ann(42)]$[AtAll]");
    assert_eq!(MessageChain::default().to_string(), "");
    assert_eq!(chain.iter().count(), 3);
    assert_eq!(chain.elements().len(), 3);
}

#[test]
fn reply_quotes_first_sequence_number() {
    let mut chain = MessageChain::from_elements(vec![MessageElement::Text("q".to_string())]);
    {
        let meta = chain.metadata_mut();
        meta.seqs = vec![7, 8];
        meta.sender = 99;
        meta.time = 1000;
    }
    let r = chain.reply();
    assert_eq!(r.reply_seq, 7);
    assert_eq!(r.sender, 99);
    assert_eq!(r.time, 1000);
    assert_eq!(r.elements.len(), 1);
    let r2 = chain.clone().into_reply();
    assert_eq!(r2.reply_seq, 7);
    assert!(chain.referred().is_none());
    chain.with_reply(r);
    assert_eq!(chain.referred().map(|r| r.reply_seq), Some(7));
    chain.with_anonymous(anonymous("anon"));
    assert_eq!(chain.metadata().anonymous.as_ref().map(|a| a.nick.clone()), Some("anon".to_string()));
}

#[test]
fn raw_list_splits_metadata_from_content() {
    let raw = vec![
        RawElement::Reply(Reply { reply_seq: 3, sender: 1, time: 2, elements: vec![] }),
        RawElement::Anonymous(anonymous("first")),
        RawElement::Text("a".to_string()),
        RawElement::At(At { target: 0, display: "@all".to_string() }),
        RawElement::Anonymous(anonymous("second")),
        RawElement::Other("[Dice]".to_string()),
        RawElement::GroupImage(group_image(None, vec![1])),
    ];
    let chain = MessageChain::from_raw(raw);
    let meta: &MessageMetadata = chain.metadata();
    assert_eq!(meta.reply.as_ref().map(|r| r.reply_seq), Some(3));
    assert_eq!(meta.anonymous.as_ref().map(|a| a.nick.as_str()), Some("second"));
    assert!(meta.seqs.is_empty());
    let e = chain.elements();
    assert_eq!(e.len(), 4);
    assert!(matches!(&e[0], MessageElement::Text(t) if t == "a"));
    assert!(matches!(&e[1], MessageElement::AtAll));
    assert!(matches!(&e[2], MessageElement::Unknown(t) if t == "[Dice]"));
    assert!(matches!(&e[3], MessageElement::Image(Image::Group(_))));
}

#[test]
fn transport_round_trip_keeps_content_and_metadata() {
    let mut chain = MessageChain::from_elements(vec![
        MessageElement::Text("x".to_string()),
        MessageElement::At(At { target: 5, display: "@5".to_string() }),
        MessageElement::AtAll,
        MessageElement::Face(Face { index: 4, name: "f".to_string() }),
    ]);
    chain.with_anonymous(anonymous("a"));
    chain.with_reply(Reply { reply_seq: 11, sender: 12, time: 13, elements: vec![] });
    let raw = chain.clone().into_raw();
    assert!(matches!(&raw[0], RawElement::Reply(_)));
    assert!(matches!(&raw[1], RawElement::Anonymous(_)));
    assert!(matches!(&raw[4], RawElement::At(a) if a.target == 0 && a.display.is_empty()));
    let back = MessageChain::from_raw(raw);
    assert_eq!(back.to_string(), chain.to_string());
    assert_eq!(back.metadata().reply.as_ref().map(|r| r.reply_seq), Some(11));
    assert_eq!(back.metadata().anonymous.as_ref().map(|a| a.nick.as_str()), Some("a"));
}

#[test]
fn unknown_elements_are_not_sent() {
    let chain = MessageChain::from_elements(vec![
        MessageElement::Unknown("?".to_string()),
        MessageElement::Text("t".to_string()),
    ]);
    let raw = chain.into_raw();
    assert_eq!(raw.len(), 1);
    assert!(matches!(&raw[0], RawElement::Text(t) if t == "t"));
}

#[test]
fn element_from_raw_maps_metadata_to_none() {
    assert!(MessageElement::from_raw(RawElement::Anonymous(anonymous("n"))).is_none());
    assert!(MessageElement::from_raw(RawElement::Reply(Reply {
        reply_seq: 0,
        sender: 0,
        time: 0,
        elements: vec![]
    }))
    .is_none());
    assert!(matches!(
        MessageElement::from_raw(RawElement::At(At { target: 8, display: "d".to_string() })),
        Some(MessageElement::At(a)) if a.target == 8
    ));
}

#[test]
fn anonymous_goes_before_reply_in_either_order() {
    let mk_reply = || Reply { reply_seq: 1, sender: 2, time: 3, elements: vec![] };
    let mut v = vec![RawElement::Text("body".to_string())];
    anonymous("a").push_to(&mut v);
    mk_reply().push_to(&mut v);
    assert!(matches!(&v[0], RawElement::Anonymous(_)));
    assert!(matches!(&v[1], RawElement::Reply(_)));
    assert!(matches!(&v[2], RawElement::Text(_)));

    let mut w = vec![RawElement::Text("body".to_string())];
    mk_reply().push_to(&mut w);
    anonymous("a").push_to(&mut w);
    assert!(matches!(&w[0], RawElement::Anonymous(_)));
    assert!(matches!(&w[1], RawElement::Reply(_)));
    assert!(matches!(&w[2], RawElement::Text(_)));

    let mut e: Vec<RawElement> = vec![];
    mk_reply().push_to(&mut e);
    assert_eq!(e.len(), 1);
}

#[test]
fn element_push_to_sends_at_all_as_target_zero() {
    let mut v = vec![];
    MessageElement::AtAll.push_to(&mut v);
    MessageElement::Unknown("u".to_string()).push_to(&mut v);
    assert_eq!(v.len(), 1);
    assert!(matches!(&v[0], RawElement::At(a) if a.target == 0));
}

#[test]
fn forward_of_one_message() {
    let chain = MessageChain::from_elements(vec![MessageElement::Text("m".to_string())]);
    let f = ForwardMessage::from_message_chain(10, "Ann".to_string(), 5, chain);
    assert_eq!(f.len(), 1);
    match f.iter().next() {
        Some(ForwardNode::NormalMessage { info, chain }) => {
            assert_eq!(info.sender_id, 10);
            assert_eq!(info.sender_name, "Ann");
            assert_eq!(info.time, 5);
            assert_eq!(chain.to_string(), "m");
        }
        _ => panic!("expected a normal message"),
    }
    let nodes = f.into_nodes();
    assert_eq!(ForwardMessage::from_nodes(nodes).len(), 1);
}

#[test]
fn defaults_are_empty() {
    let m = MessageMetadata::default();
    assert!(m.seqs.is_empty() && m.rands.is_empty());
    assert_eq!(m.time, 0);
    assert_eq!(m.sender, 0);
    assert!(m.anonymous.is_none() && m.reply.is_none());
    let a = Anonymous::default();
    assert!(a.anon_id.is_empty() && a.nick.is_empty() && a.color.is_empty());
}
