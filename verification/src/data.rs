//! Where the bot keeps its data files.

use vstd::prelude::*;

use crate::path::join_path;

verus! {

/// The directory of the bot's data.
pub const DATA_PATH: &'static str = "data";

/// The directory of fonts, inside the data directory.
pub const FONT_DATA_PATH: &'static str = "font";

/// The path of the font directory: `data/font`.
pub fn font_data_buf() -> (r: String)
    ensures
        r@ == "data/font"@,
{
    let base = join_path("", "data");
    let r = join_path(base.as_str(), "font");
    proof {
        reveal_strlit("");
        reveal_strlit("data");
        reveal_strlit("font");
        reveal_strlit("data/font");
        assert(base@ =~= "data"@);
        assert(r@ =~= "data/font"@);
    }
    r
}

} // verus!
