//! A clip and the errors raised while building one.

use vstd::prelude::*;
use vstd::string::StringExecFns;

pub mod field;

verus! {

/// Why a value could not become part of a clip.
#[derive(Debug)]
pub enum ClipError {
    /// The password is not acceptable; the text says why.
    InvalidPassword(String),
    /// The title is not acceptable; the text says why.
    InvalidTitle(String),
    /// The date is not acceptable; the text says why.
    InvalidDate(String),
    /// A clip must have content.
    EmptyContent,
    /// The date could not be read.
    DateParseError(chrono::format::ParseError),
    /// The identifier could not be read.
    InvalidId(uuid::Error),
    /// The hit count does not fit.
    InvalidHits(core::num::TryFromIntError),
}

/// [`ClipError`] as contracts speak of it: the variant, and the text where
/// the variant carries one.
pub enum ClipErrorView {
    InvalidPassword(Seq<char>),
    InvalidTitle(Seq<char>),
    InvalidDate(Seq<char>),
    EmptyContent,
    DateParseError,
    InvalidId,
    InvalidHits,
}

impl View for ClipError {
    type V = ClipErrorView;

    open spec fn view(&self) -> ClipErrorView {
        match self {
            ClipError::InvalidPassword(text) => ClipErrorView::InvalidPassword(text@),
            ClipError::InvalidTitle(text) => ClipErrorView::InvalidTitle(text@),
            ClipError::InvalidDate(text) => ClipErrorView::InvalidDate(text@),
            ClipError::EmptyContent => ClipErrorView::EmptyContent,
            ClipError::DateParseError(_) => ClipErrorView::DateParseError,
            ClipError::InvalidId(_) => ClipErrorView::InvalidId,
            ClipError::InvalidHits(_) => ClipErrorView::InvalidHits,
        }
    }
}

/// A stored piece of text with what the service knows about it.
#[derive(Debug)]
pub struct Clip {
    pub id: field::ClipId,
    pub title: field::Title,
    pub content: field::Content,
    pub shortcode: field::ShortCode,
    pub created_at: field::CreatedAt,
    pub expires_at: field::ExpiresAt,
    pub password: field::Password,
    pub hits: field::Hits,
}

/// A clip as contracts speak of it.
pub struct ClipModel {
    /// The 128 bits of the identifier.
    pub id: u128,
    pub title: Option<Seq<char>>,
    pub content: Seq<char>,
    pub shortcode: Seq<char>,
    /// Seconds since 1970-01-01 00:00:00 UTC.
    pub created_at: i64,
    /// Seconds since 1970-01-01 00:00:00 UTC, where the clip expires at all.
    pub expires_at: Option<i64>,
    pub password: Option<Seq<char>>,
    pub hits: i64,
}

impl ClipModel {
    /// What every clip satisfies: content is not empty, and neither is a
    /// password or a title that is present.
    pub open spec fn valid(self) -> bool {
        &&& self.content.len() > 0
        &&& self.password matches Some(secret) ==> secret.len() > 0
        &&& self.title matches Some(text) ==> text.len() > 0
    }
}

impl View for Clip {
    type V = ClipModel;

    open spec fn view(&self) -> ClipModel {
        ClipModel {
            id: self.id@,
            title: self.title@,
            content: self.content@,
            shortcode: self.shortcode@,
            created_at: self.created_at@,
            expires_at: self.expires_at@,
            password: self.password@,
            hits: self.hits@,
        }
    }
}

impl Clone for Clip {
    fn clone(&self) -> (r: Self)
        ensures
            r@ == self@,
    {
        Clip {
            id: self.id.clone(),
            title: self.title.clone(),
            content: self.content.clone(),
            shortcode: self.shortcode.clone(),
            created_at: self.created_at.clone(),
            expires_at: self.expires_at.clone(),
            password: self.password.clone(),
            hits: self.hits.clone(),
        }
    }
}

/// A text after a fixed opening.
pub(crate) fn prefixed(opening: &str, text: &str) -> (r: String)
    ensures
        r@ == opening@ + text@,
{
    let mut r = opening.to_owned();
    r.append(text);
    r
}

impl ClipError {
    /// The error in words: what went wrong, then the detail where there is
    /// one.
    pub fn message(&self) -> (r: String)
        ensures
            match self@ {
                ClipErrorView::InvalidPassword(text) => r@ == "invalid password, "@ + text,
                ClipErrorView::InvalidTitle(text) => r@ == "invalid title, "@ + text,
                ClipErrorView::InvalidDate(text) => r@ == "invalid date, "@ + text,
                ClipErrorView::EmptyContent => r@ == "empty content"@,
                ClipErrorView::DateParseError => "date parse error, "@.is_prefix_of(r@),
                ClipErrorView::InvalidId => "id parse error, "@.is_prefix_of(r@),
                ClipErrorView::InvalidHits => "hits parse error, "@.is_prefix_of(r@),
            },
    {
        match self {
            ClipError::InvalidPassword(text) => prefixed("invalid password, ", text.as_str()),
            ClipError::InvalidTitle(text) => prefixed("invalid title, ", text.as_str()),
            ClipError::InvalidDate(text) => prefixed("invalid date, ", text.as_str()),
            ClipError::EmptyContent => "empty content".to_owned(),
            ClipError::DateParseError(e) => prefixed("date parse error, ", e.to_string().as_str()),
            ClipError::InvalidId(e) => prefixed("id parse error, ", e.to_string().as_str()),
            ClipError::InvalidHits(e) => prefixed("hits parse error, ", e.to_string().as_str()),
        }
    }
}

} // verus!
