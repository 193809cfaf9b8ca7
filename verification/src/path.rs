//! File paths as text, joined the way `PathBuf::push` joins them on Unix.

use vstd::prelude::*;

use crate::text::{chars_of, push_char, push_text};

verus! {

/// A path with `part` appended: an absolute `part` replaces the path, and a
/// separator goes between the two unless the path is empty or already ends
/// with one.
pub open spec fn path_join(base: Seq<char>, part: Seq<char>) -> Seq<char> {
    if part.len() > 0 && part[0] == '/' {
        part
    } else if base.len() == 0 || base.last() == '/' {
        base + part
    } else {
        base + seq!['/'] + part
    }
}

/// Appends `part` to the path `base`, as `PathBuf::push` does.
pub fn push_path(base: &mut String, part: &str)
    ensures
        final(base)@ == path_join(old(base)@, part@),
{
    let pc = chars_of(part);
    let bc = chars_of(base.as_str());
    if pc.len() > 0 && pc[0] == '/' {
        *base = String::new();
        push_text(base, part);
        assert(base@ =~= path_join(old(base)@, part@));
    } else if bc.len() == 0 || bc[bc.len() - 1] == '/' {
        push_text(base, part);
    } else {
        push_char(base, '/');
        push_text(base, part);
    }
}

/// The path `base` with `part` appended.
pub fn join_path(base: &str, part: &str) -> (r: String)
    ensures
        r@ == path_join(base@, part@),
{
    let mut s = String::new();
    push_text(&mut s, base);
    assert(s@ =~= base@);
    push_path(&mut s, part);
    s
}

} // verus!
