//! Drawing memes: which requests the bot answers, and with what number.

use vstd::prelude::*;

use crate::message::image::{Image, ImageView};
use crate::message::{ElementView, MessageElement};
use crate::text::{parse_u8, parse_u8_spec};

verus! {

/// Why a meme could not be drawn.
pub enum MemeError {
    Other(String),
}

/// The "zero" meme: a picture dimmed behind a ring and a percentage.
pub struct Zero;

/// What matching a regular expression against a text gives for its first
/// capture group: `None` when the pattern does not compile, `Some(None)`
/// when the text does not match or the group takes no part in the match,
/// and `Some(Some(c))` with the text `c` that the group matched otherwise.
pub uninterp spec fn regex_first_group(pattern: Seq<char>, text: Seq<char>) -> Option<Option<Seq<char>>>;

/// Matches `pattern` against `text` and returns the first capture group.
///
/// Calls `regex::Regex::new`, whose error (an invalid pattern, or one over
/// the size limit) comes back as `None`, then `Regex::captures` and
/// `Captures::get(1)`, which the crate documents as `None` when the group
/// does not exist or did not take part in the match. The result is a
/// function of the pattern and the text alone, named `regex_first_group`.
#[verifier::external_body]
fn captures_group1(pattern: &str, text: &str) -> (r: Option<Option<String>>)
    ensures
        match r {
            Some(Some(c)) => regex_first_group(pattern@, text@) == Some(Some(c@)),
            Some(None) => regex_first_group(pattern@, text@) == Some(None::<Seq<char>>),
            None => regex_first_group(pattern@, text@) is None,
        },
{
    let re = match regex::Regex::new(pattern) {
        Ok(re) => re,
        Err(_) => return None,
    };
    match re.captures(text) {
        Some(caps) => match caps.get(1) {
            Some(m) => Some(Some(m.as_str().to_string())),
            None => Some(None),
        },
        None => Some(None),
    }
}

/// The pattern of a request for the "zero" meme: `#` and up to three
/// decimal digits at the start of the message, the digits captured.
pub open spec fn zero_meme_pattern() -> Seq<char> {
    "^#(\\d{1,3})"@
}

/// The captured text of a match, if there is one.
pub open spec fn matched_group(g: Option<Option<Seq<char>>>) -> Option<Seq<char>> {
    match g {
        Some(Some(c)) => Some(c),
        _ => None,
    }
}

/// The percentage that a captured number gives: the number when it parses
/// as a byte and is at most 100.
pub open spec fn percent_of_capture_spec(capture: Option<Seq<char>>) -> Option<u8> {
    match capture {
        Some(c) => match parse_u8_spec(c) {
            Some(n) => if n <= 100 {
                Some(n)
            } else {
                None
            },
            None => None,
        },
        None => None,
    }
}

/// The percentage that a captured number gives.
pub fn percent_of_capture(capture: Option<&str>) -> (r: Option<u8>)
    ensures
        r == percent_of_capture_spec(
            match capture {
                Some(c) => Some(c@),
                None => None,
            },
        ),
        r matches Some(n) ==> n <= 100,
{
    match capture {
        Some(c) => match parse_u8(c) {
            Some(n) => if n <= 100 {
                Some(n)
            } else {
                None
            },
            None => None,
        },
        None => None,
    }
}

/// The percentage that a message asks the "zero" meme to show, if it asks
/// for one: `#` and up to three digits at its start, naming a number from 0
/// to 100.
pub fn zero_meme_percent(text: &str) -> (r: Option<u8>)
    ensures
        r == percent_of_capture_spec(matched_group(regex_first_group(zero_meme_pattern(), text@))),
        r matches Some(n) ==> n <= 100,
{
    let pattern = "^#(\\d{1,3})";
    proof {
        assert(pattern@ == zero_meme_pattern());
    }
    match captures_group1(pattern, text) {
        Some(Some(c)) => percent_of_capture(Some(c.as_str())),
        _ => percent_of_capture(None),
    }
}

/// Whether an element is an image of a group chat.
pub open spec fn is_group_image(e: ElementView) -> bool {
    e matches ElementView::Image(ImageView::Group(_))
}

/// Where the first group image of a message is, if it has one: the image
/// that a meme is drawn from.
pub fn first_group_image(elements: &[MessageElement]) -> (r: Option<usize>)
    ensures
        match r {
            Some(i) => {
                &&& i < elements@.len()
                &&& is_group_image(elements@[i as int]@)
                &&& forall|k: int| 0 <= k < i ==> !is_group_image(#[trigger] elements@[k]@)
            },
            None => forall|k: int| 0 <= k < elements@.len() ==> !is_group_image(#[trigger] elements@[k]@),
        },
{
    let mut i: usize = 0;
    while i < elements.len()
        invariant
            0 <= i <= elements@.len(),
            forall|k: int| 0 <= k < i ==> !is_group_image(#[trigger] elements@[k]@),
        decreases elements.len() - i,
    {
        match &elements[i] {
            MessageElement::Image(Image::Group(_)) => {
                return Some(i);
            },
            _ => {},
        }
        i = i + 1;
    }
    None
}

} // verus!
