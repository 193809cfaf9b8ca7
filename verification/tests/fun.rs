use atri_bot::fun::meme::{percent_of_capture, zero_meme_percent};
use atri_bot::fun::moli::{mentions_bot, reply_parts, MoliConfig, MoliData, MoliMessage, MoliReplyPart, MoliResponse};
use atri_bot::fun::num_bomb::NumBomb;
use atri_bot::message::at::At;
use atri_bot::message::image::GroupImage;
use atri_bot::message::raw::RawElement;

#[test]
fn zero_meme_numbers() {
    assert_eq!(zero_meme_percent("#50"), Some(50));
    assert_eq!(zero_meme_percent("#0"), Some(0));
    assert_eq!(zero_meme_percent("#100abc"), Some(100));
    assert_eq!(zero_meme_percent("#101"), None);
    assert_eq!(zero_meme_percent("#999"), None);
    assert_eq!(zero_meme_percent("#1234"), None);
    assert_eq!(zero_meme_percent("#12 34"), Some(12));
    assert_eq!(zero_meme_percent("# 5"), None);
    assert_eq!(zero_meme_percent("x#5"), None);
    assert_eq!(zero_meme_percent("#٣"), None);
    assert_eq!(percent_of_capture(Some("100")), Some(100));
    assert_eq!(percent_of_capture(Some("300")), None);
    assert_eq!(percent_of_capture(None), None);
}

#[test]
fn number_bomb_bounds() {
    for _ in 0..200 {
        if let Some(b) = NumBomb::new() {
            assert!(b.start() <= b.num() && b.num() <= b.end());
            assert!(b.end() < u16::MAX);
        }
    }
}

#[test]
fn number_bomb_from_bounds() {
    assert!(NumBomb::from_bounds(10, 5).is_none());
    let b = NumBomb::from_bounds(7, 7).unwrap();
    assert_eq!((b.start(), b.num(), b.end()), (7, 7, 7));
    for _ in 0..100 {
        let b = NumBomb::from_bounds(3, 9).unwrap();
        assert_eq!(b.start(), 3);
        assert_eq!(b.end(), 9);
        assert!(3 <= b.num() && b.num() <= 9);
    }
}

fn image() -> GroupImage {
    GroupImage {
        file_path: String::new(),
        file_id: 0,
        size: 0,
        width: 0,
        height: 0,
        md5: vec![],
        orig_url: None,
        image_type: 0,
        signature: vec![],
        server_ip: 0,
        server_port: 0,
    }
}

#[test]
fn moli_request_content() {
    let elems = vec![
        RawElement::At(At { target: 1, display: "@亚托莉".to_string() }),
        RawElement::Text(" 你好".to_string()),
        RawElement::GroupImage(image()),
        RawElement::At(At { target: 0, display: "@全体成员".to_string() }),
        RawElement::Other("[表情]".to_string()),
    ];
    let m = MoliMessage::from_group_message(&elems, 5, 6, "g".to_string(), "s".to_string());
    assert_eq!(m.content, "@亚托莉 你好[图片]@全体成员");
    assert_eq!(m.chat_type, 2);
    assert_eq!(m.from, 5);
    assert_eq!(m.from_name, "s");
    assert_eq!(m.to, 6);
    assert_eq!(m.to_name, "g");
    assert!(mentions_bot(&elems, 1, "nobody"));
    assert!(!mentions_bot(&elems, 2, "nobody"));
    assert!(mentions_bot(&elems, 2, "你好"));
    assert!(!mentions_bot(&[], 2, ""));
    assert!(mentions_bot(&elems, 0, "nobody"));
}

#[test]
fn moli_answer_parts() {
    let data = |content: &str, typed: u8| MoliData { content: content.to_string(), typed, remark: None };
    let ok = MoliResponse {
        code: "00000".to_string(),
        message: "ok".to_string(),
        plugin: None,
        data: vec![data("hi", 1), data("a.png", 2), data("?", 3)],
    };
    let parts = reply_parts(&ok).expect("success");
    assert_eq!(parts.len(), 2);
    assert!(matches!(&parts[0], MoliReplyPart::Text(t) if t == "hi"));
    assert!(matches!(&parts[1], MoliReplyPart::ImageUrl(u) if u == "https://files.molicloud.com/a.png"));
    let bad = MoliResponse { code: "C1001".to_string(), message: "no".to_string(), plugin: None, data: vec![data("x", 1)] };
    assert!(reply_parts(&bad).is_none());
}

#[test]
fn moli_defaults() {
    let c = MoliConfig::default();
    assert_eq!(c.name, "亚托莉");
    assert_eq!(c.reply_times, 0);
    assert!(!c.do_quote_reply);
    assert_eq!(c.default_reply, vec!["？", "怎么", "怎么了", "什么？", "在", "嗯？"]);
    assert_eq!(c.timeout_reply, vec!["没事我就溜了", "emmmmm", "......", "溜了", "？"]);
}
