//! Built-in emoticons.

use vstd::prelude::*;

verus! {

/// A built-in emoticon: its index in the client's table and its name.
pub struct Face {
    pub index: i32,
    pub name: String,
}

/// The mathematical value of a [`Face`].
pub ghost struct FaceView {
    pub index: i32,
    pub name: Seq<char>,
}

impl View for Face {
    type V = FaceView;

    open spec fn view(&self) -> FaceView {
        FaceView { index: self.index, name: self.name@ }
    }
}

impl Clone for Face {
    fn clone(&self) -> (r: Self)
        ensures
            r@ == self@,
    {
        Face { index: self.index, name: self.name.clone() }
    }
}

} // verus!
