//! Images received in, or uploaded to, a group or a private chat.

use vstd::prelude::*;

use crate::text::{hex_upper, push_hex_upper, push_text};

verus! {

/// An image of a group chat, as the protocol describes it.
pub struct GroupImage {
    pub file_path: String,
    pub file_id: i64,
    pub size: u32,
    pub width: u32,
    pub height: u32,
    pub md5: Vec<u8>,
    pub orig_url: Option<String>,
    pub image_type: i32,
    pub signature: Vec<u8>,
    pub server_ip: u32,
    pub server_port: u32,
}

/// The mathematical value of a [`GroupImage`].
pub ghost struct GroupImageView {
    pub file_path: Seq<char>,
    pub file_id: i64,
    pub size: u32,
    pub width: u32,
    pub height: u32,
    pub md5: Seq<u8>,
    pub orig_url: Option<Seq<char>>,
    pub image_type: i32,
    pub signature: Seq<u8>,
    pub server_ip: u32,
    pub server_port: u32,
}

impl View for GroupImage {
    type V = GroupImageView;

    open spec fn view(&self) -> GroupImageView {
        GroupImageView {
            file_path: self.file_path@,
            file_id: self.file_id,
            size: self.size,
            width: self.width,
            height: self.height,
            md5: self.md5@,
            orig_url: match self.orig_url {
                Some(u) => Some(u@),
                None => None,
            },
            image_type: self.image_type,
            signature: self.signature@,
            server_ip: self.server_ip,
            server_port: self.server_port,
        }
    }
}

impl Clone for GroupImage {
    fn clone(&self) -> (r: Self)
        ensures
            r@ == self@,
    {
        let orig_url = match &self.orig_url {
            Some(u) => Some(u.clone()),
            None => None,
        };
        let r = GroupImage {
            file_path: self.file_path.clone(),
            file_id: self.file_id,
            size: self.size,
            width: self.width,
            height: self.height,
            md5: self.md5.clone(),
            orig_url,
            image_type: self.image_type,
            signature: self.signature.clone(),
            server_ip: self.server_ip,
            server_port: self.server_port,
        };
        assert(r.md5@ =~= self.md5@);
        assert(r.signature@ =~= self.signature@);
        r
    }
}

/// An image of a private chat, as the protocol describes it.
pub struct FriendImage {
    pub res_id: String,
    pub file_path: String,
    pub md5: Vec<u8>,
    pub size: u32,
    pub width: u32,
    pub height: u32,
    pub image_type: i32,
    pub orig_url: String,
    pub download_path: String,
}

/// The mathematical value of a [`FriendImage`].
pub ghost struct FriendImageView {
    pub res_id: Seq<char>,
    pub file_path: Seq<char>,
    pub md5: Seq<u8>,
    pub size: u32,
    pub width: u32,
    pub height: u32,
    pub image_type: i32,
    pub orig_url: Seq<char>,
    pub download_path: Seq<char>,
}

impl View for FriendImage {
    type V = FriendImageView;

    open spec fn view(&self) -> FriendImageView {
        FriendImageView {
            res_id: self.res_id@,
            file_path: self.file_path@,
            md5: self.md5@,
            size: self.size,
            width: self.width,
            height: self.height,
            image_type: self.image_type,
            orig_url: self.orig_url@,
            download_path: self.download_path@,
        }
    }
}

impl Clone for FriendImage {
    fn clone(&self) -> (r: Self)
        ensures
            r@ == self@,
    {
        let r = FriendImage {
            res_id: self.res_id.clone(),
            file_path: self.file_path.clone(),
            md5: self.md5.clone(),
            size: self.size,
            width: self.width,
            height: self.height,
            image_type: self.image_type,
            orig_url: self.orig_url.clone(),
            download_path: self.download_path.clone(),
        };
        assert(r.md5@ =~= self.md5@);
        r
    }
}

/// An image of either kind of chat.
pub enum Image {
    Group(GroupImage),
    Friend(FriendImage),
}

/// The mathematical value of an [`Image`].
pub ghost enum ImageView {
    Group(GroupImageView),
    Friend(FriendImageView),
}

impl View for Image {
    type V = ImageView;

    open spec fn view(&self) -> ImageView {
        match self {
            Image::Group(g) => ImageView::Group(g@),
            Image::Friend(f) => ImageView::Friend(f@),
        }
    }
}

impl Clone for Image {
    fn clone(&self) -> (r: Self)
        ensures
            r@ == self@,
    {
        match self {
            Image::Group(g) => Image::Group(g.clone()),
            Image::Friend(f) => Image::Friend(f.clone()),
        }
    }
}

impl From<GroupImage> for Image {
    fn from(g: GroupImage) -> (r: Self) {
        Image::Group(g)
    }
}

impl vstd::std_specs::convert::FromSpecImpl<GroupImage> for Image {
    open spec fn obeys_from_spec() -> bool {
        true
    }

    open spec fn from_spec(v: GroupImage) -> Image {
        Image::Group(v)
    }
}

impl From<FriendImage> for Image {
    fn from(f: FriendImage) -> (r: Self) {
        Image::Friend(f)
    }
}

impl vstd::std_specs::convert::FromSpecImpl<FriendImage> for Image {
    open spec fn obeys_from_spec() -> bool {
        true
    }

    open spec fn from_spec(v: FriendImage) -> Image {
        Image::Friend(v)
    }
}

/// Where a group image can be downloaded: the server's own path when it
/// sent one, else a path built from the image's MD5 digest.
pub open spec fn group_image_url(g: GroupImageView) -> Seq<char> {
    match g.orig_url {
        Some(u) => "https://gchat.qpic.cn"@ + u,
        None => "https://gchat.qpic.cn/gchatpic_new/0/0-0-"@ + hex_upper(g.md5) + "/0?term=2"@,
    }
}

/// Where a private-chat image can be downloaded: the server's own path when
/// it sent one, else a path built from the download path or, lacking that,
/// the resource id.
pub open spec fn friend_image_url(f: FriendImageView) -> Seq<char> {
    if f.orig_url.len() > 0 {
        "https://c2cpicdw.qpic.cn"@ + f.orig_url
    } else {
        "https://c2cpicdw.qpic.cn/offpic_new/0/"@ + (if f.download_path.len() > 0 {
            f.download_path
        } else {
            f.res_id
        }) + "/0?term=3"@
    }
}

/// The download address of an image.
pub open spec fn image_url(i: ImageView) -> Seq<char> {
    match i {
        ImageView::Group(g) => group_image_url(g),
        ImageView::Friend(f) => friend_image_url(f),
    }
}

/// The server-side file path of an image, which identifies it.
pub open spec fn image_id(i: ImageView) -> Seq<char> {
    match i {
        ImageView::Group(g) => g.file_path,
        ImageView::Friend(f) => f.file_path,
    }
}

impl GroupImage {
    /// Appends this image's download address to `s`.
    pub fn push_url(&self, s: &mut String)
        ensures
            final(s)@ == old(s)@ + group_image_url(self@),
    {
        match &self.orig_url {
            Some(u) => {
                push_text(s, "https://gchat.qpic.cn");
                push_text(s, u.as_str());
            },
            None => {
                push_text(s, "https://gchat.qpic.cn/gchatpic_new/0/0-0-");
                push_hex_upper(s, self.md5.as_slice());
                push_text(s, "/0?term=2");
            },
        }
        assert(s@ =~= old(s)@ + group_image_url(self@));
    }

    /// The download address of this image.
    pub fn url(&self) -> (r: String)
        ensures
            r@ == group_image_url(self@),
    {
        let mut s = String::new();
        self.push_url(&mut s);
        assert(s@ =~= group_image_url(self@));
        s
    }
}

impl FriendImage {
    /// Appends this image's download address to `s`.
    pub fn push_url(&self, s: &mut String)
        ensures
            final(s)@ == old(s)@ + friend_image_url(self@),
    {
        if self.orig_url.as_str().unicode_len() > 0 {
            push_text(s, "https://c2cpicdw.qpic.cn");
            push_text(s, self.orig_url.as_str());
        } else {
            push_text(s, "https://c2cpicdw.qpic.cn/offpic_new/0/");
            if self.download_path.as_str().unicode_len() > 0 {
                push_text(s, self.download_path.as_str());
            } else {
                push_text(s, self.res_id.as_str());
            }
            push_text(s, "/0?term=3");
        }
        assert(s@ =~= old(s)@ + friend_image_url(self@));
    }

    /// The download address of this image.
    pub fn url(&self) -> (r: String)
        ensures
            r@ == friend_image_url(self@),
    {
        let mut s = String::new();
        self.push_url(&mut s);
        assert(s@ =~= friend_image_url(self@));
        s
    }
}

impl Image {
    /// The server-side file path of this image.
    pub fn id(&self) -> (r: &str)
        ensures
            r@ == image_id(self@),
    {
        match self {
            Image::Group(g) => g.file_path.as_str(),
            Image::Friend(f) => f.file_path.as_str(),
        }
    }

    /// Appends this image's download address to `s`.
    pub fn push_url(&self, s: &mut String)
        ensures
            final(s)@ == old(s)@ + image_url(self@),
    {
        match self {
            Image::Group(g) => g.push_url(s),
            Image::Friend(f) => f.push_url(s),
        }
    }

    /// The download address of this image.
    pub fn url(&self) -> (r: String)
        ensures
            r@ == image_url(self@),
    {
        match self {
            Image::Group(g) => g.url(),
            Image::Friend(f) => f.url(),
        }
    }
}

} // verus!
