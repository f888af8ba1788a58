//! The profile that a peer publishes about itself.

use vstd::prelude::*;

verus! {

/// Mathematical value of a profile.
pub struct UserInfoView {
    pub name: Seq<char>,
    pub avatar: Option<Seq<u8>>,
    pub bio: Option<Seq<char>>,
}

/// A peer's profile: a name, an optional avatar image and an optional
/// biography.
#[derive(Clone, Debug, PartialEq, Eq)]
pub struct UserInfo {
    pub name: String,
    pub avatar: Option<Vec<u8>>,
    pub bio: Option<String>,
}

/// View of an optional byte blob.
pub open spec fn blob_view(v: Option<Vec<u8>>) -> Option<Seq<u8>> {
    match v {
        Some(b) => Some(b@),
        None => None,
    }
}

/// View of an optional text.
pub open spec fn text_view(v: Option<String>) -> Option<Seq<char>> {
    match v {
        Some(s) => Some(s@),
        None => None,
    }
}

impl View for UserInfo {
    type V = UserInfoView;

    open spec fn view(&self) -> UserInfoView {
        UserInfoView { name: self.name@, avatar: blob_view(self.avatar), bio: text_view(self.bio) }
    }
}

/// A copy of a byte string.
pub fn copy_bytes(data: &[u8]) -> (r: Vec<u8>)
    ensures
        r@ == data@,
{
    let mut out: Vec<u8> = Vec::new();
    let mut i: usize = 0;
    while i < data.len()
        invariant
            i <= data@.len(),
            out@ == data@.subrange(0, i as int),
        decreases data@.len() - i,
    {
        out.push(data[i]);
        assert(data@.subrange(0, i + 1) =~= data@.subrange(0, i as int).push(data@[i as int]));
        i += 1;
    }
    assert(data@.subrange(0, data@.len() as int) =~= data@);
    out
}

impl UserInfo {
    /// A profile made of the given parts.
    pub fn new(name: String, avatar: Option<Vec<u8>>, bio: Option<String>) -> (r: UserInfo)
        ensures
            r@ == (UserInfoView { name: name@, avatar: blob_view(avatar), bio: text_view(bio) }),
            r.name == name,
            r.avatar == avatar,
            r.bio == bio,
    {
        UserInfo { name, avatar, bio }
    }

    /// The profile's name.
    pub fn name(&self) -> (r: String)
        ensures
            r@ == self@.name,
    {
        self.name.clone()
    }

    /// The profile's avatar, if it has one.
    pub fn avatar(&self) -> (r: Option<Vec<u8>>)
        ensures
            blob_view(r) == self@.avatar,
    {
        match &self.avatar {
            Some(b) => Some(copy_bytes(b.as_slice())),
            None => None,
        }
    }

    /// The profile's biography, if it has one.
    pub fn bio(&self) -> (r: Option<String>)
        ensures
            text_view(r) == self@.bio,
    {
        match &self.bio {
            Some(s) => Some(s.clone()),
            None => None,
        }
    }

    /// A copy with the same value.
    pub fn duplicate(&self) -> (r: UserInfo)
        ensures
            r@ == self@,
    {
        UserInfo { name: self.name(), avatar: self.avatar(), bio: self.bio() }
    }
}

} // verus!
