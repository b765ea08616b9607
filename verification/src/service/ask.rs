//! What a caller asks of the clip service.

use crate::domain::clip::field;
use crate::ShortCode;
use vstd::prelude::*;
use vstd::std_specs::convert::FromSpecImpl;

verus! {

/// Asks for the clip stored under a code.
#[derive(Debug)]
pub struct GetClip {
    pub shortcode: ShortCode,
    /// The secret that the caller supplies; unset where none was given.
    pub password: field::Password,
}

/// [`GetClip`] as contracts speak of it.
pub struct GetClipModel {
    pub shortcode: Seq<char>,
    pub password: Option<Seq<char>>,
}

impl View for GetClip {
    type V = GetClipModel;

    open spec fn view(&self) -> GetClipModel {
        GetClipModel { shortcode: self.shortcode@, password: self.password@ }
    }
}

impl GetClip {
    /// The request for `shortcode` with the secret `password`.
    pub fn new(shortcode: ShortCode, password: field::Password) -> (r: Self)
        ensures
            r@ == (GetClipModel { shortcode: shortcode@, password: password@ }),
    {
        GetClip { shortcode, password }
    }

    /// The request for the code with the given text, without a secret.
    pub fn from_str(shortcode: &str) -> (r: Self)
        ensures
            r@ == (GetClipModel { shortcode: shortcode@, password: None }),
    {
        GetClip { shortcode: ShortCode::from_str(shortcode), password: field::Password::default() }
    }
}

impl From<ShortCode> for GetClip {
    /// The request for `shortcode`, without a secret.
    fn from(shortcode: ShortCode) -> (r: Self)
        ensures
            r@ == (GetClipModel { shortcode: shortcode@, password: None }),
    {
        GetClip { shortcode, password: field::Password::default() }
    }
}

impl FromSpecImpl<ShortCode> for GetClip {
    /// The conversion is stated over views.
    open spec fn obeys_from_spec() -> bool {
        false
    }

    open spec fn from_spec(shortcode: ShortCode) -> Self {
        arbitrary()
    }
}

/// Asks for a new clip. The service adds the identifier, the code and the
/// creation time.
#[derive(Debug)]
pub struct NewClip {
    pub title: field::Title,
    pub content: field::Content,
    pub password: field::Password,
    pub expires_at: field::ExpiresAt,
}

/// [`NewClip`] as contracts speak of it.
pub struct NewClipModel {
    pub title: Option<Seq<char>>,
    pub content: Seq<char>,
    pub password: Option<Seq<char>>,
    pub expires_at: Option<i64>,
}

impl NewClipModel {
    /// What every request satisfies: content is not empty, and neither is a
    /// title or a password that is present.
    pub open spec fn valid(self) -> bool {
        &&& self.content.len() > 0
        &&& self.title matches Some(text) ==> text.len() > 0
        &&& self.password matches Some(secret) ==> secret.len() > 0
    }
}

impl View for NewClip {
    type V = NewClipModel;

    open spec fn view(&self) -> NewClipModel {
        NewClipModel {
            title: self.title@,
            content: self.content@,
            password: self.password@,
            expires_at: self.expires_at@,
        }
    }
}

/// Asks to overwrite the clip stored under a code. Every field replaces the
/// stored one; the code, the identifier, the creation time and the hit count
/// stay.
#[derive(Debug)]
pub struct UpdateClip {
    pub title: field::Title,
    pub content: field::Content,
    pub password: field::Password,
    pub expires_at: field::ExpiresAt,
    pub shortcode: field::ShortCode,
}

/// [`UpdateClip`] as contracts speak of it.
pub struct UpdateClipModel {
    pub title: Option<Seq<char>>,
    pub content: Seq<char>,
    pub password: Option<Seq<char>>,
    pub expires_at: Option<i64>,
    pub shortcode: Seq<char>,
}

impl UpdateClipModel {
    /// What every request satisfies: content is not empty, and neither is a
    /// title or a password that is present.
    pub open spec fn valid(self) -> bool {
        &&& self.content.len() > 0
        &&& self.title matches Some(text) ==> text.len() > 0
        &&& self.password matches Some(secret) ==> secret.len() > 0
    }
}

impl View for UpdateClip {
    type V = UpdateClipModel;

    open spec fn view(&self) -> UpdateClipModel {
        UpdateClipModel {
            title: self.title@,
            content: self.content@,
            password: self.password@,
            expires_at: self.expires_at@,
            shortcode: self.shortcode@,
        }
    }
}

} // verus!
