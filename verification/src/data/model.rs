//! The rows of the clip table and the values that the gateway's operations
//! take.

use crate::data::{is_random_uuid, uuid_text, uuid_value, DatabaseId};
use crate::domain::clip::field;
use crate::domain::clip::field::short_code::is_generated;
use crate::domain::clip::field::title::kept_text;
use crate::domain::clip::{ClipErrorView, ClipModel};
use crate::domain::time::Time;
use crate::service::ask;
use crate::{ClipError, ShortCode};
use vstd::prelude::*;
use vstd::std_specs::convert::{FromSpecImpl, TryFromSpecImpl};

verus! {

/// A row of the clip table, as the engine hands it out.
#[derive(Debug)]
pub struct Clip {
    pub id: String,
    pub title: Option<String>,
    pub content: String,
    pub shortcode: String,
    /// Seconds since 1970-01-01 00:00:00 UTC.
    pub created_at: i64,
    /// Seconds since 1970-01-01 00:00:00 UTC.
    pub expires_at: Option<i64>,
    pub password: Option<String>,
    pub hits: i64,
}

/// A row of the clip table as contracts speak of it.
pub struct ClipRow {
    pub id: Seq<char>,
    pub title: Option<Seq<char>>,
    pub content: Seq<char>,
    pub shortcode: Seq<char>,
    pub created_at: i64,
    pub expires_at: Option<i64>,
    pub password: Option<Seq<char>>,
    pub hits: i64,
}

/// A text that may be missing, as the sequence of its characters.
pub open spec fn text_view(text: Option<String>) -> Option<Seq<char>> {
    match text {
        Some(t) => Some(t@),
        None => None,
    }
}

impl View for Clip {
    type V = ClipRow;

    open spec fn view(&self) -> ClipRow {
        ClipRow {
            id: self.id@,
            title: text_view(self.title),
            content: self.content@,
            shortcode: self.shortcode@,
            created_at: self.created_at,
            expires_at: self.expires_at,
            password: text_view(self.password),
            hits: self.hits,
        }
    }
}

impl Clone for Clip {
    fn clone(&self) -> (r: Self)
        ensures
            r@ == self@,
    {
        Clip {
            id: self.id.clone(),
            title: match &self.title {
                Some(text) => Some(text.clone()),
                None => None,
            },
            content: self.content.clone(),
            shortcode: self.shortcode.clone(),
            created_at: self.created_at,
            expires_at: self.expires_at,
            password: match &self.password {
                Some(text) => Some(text.clone()),
                None => None,
            },
            hits: self.hits,
        }
    }
}

impl ClipRow {
    /// The clip that a row stands for, or why it stands for none: the
    /// identifier must be readable and the content not empty. An empty title
    /// or password counts as none.
    pub open spec fn clip(self) -> Result<ClipModel, ClipErrorView> {
        match uuid_value(self.id) {
            None => Err(ClipErrorView::InvalidId),
            Some(id) => if self.content.len() == 0 {
                Err(ClipErrorView::EmptyContent)
            } else {
                Ok(
                    ClipModel {
                        id,
                        title: kept_text(self.title),
                        content: self.content,
                        shortcode: self.shortcode,
                        created_at: self.created_at,
                        expires_at: self.expires_at,
                        password: kept_text(self.password),
                        hits: self.hits,
                    },
                )
            },
        }
    }
}

/// The outcome of building a clip, as contracts speak of it.
pub open spec fn built(r: Result<crate::domain::Clip, ClipError>) -> Result<
    ClipModel,
    ClipErrorView,
> {
    match r {
        Ok(clip) => Ok(clip@),
        Err(e) => Err(e@),
    }
}

impl TryFromSpecImpl<Clip> for crate::domain::Clip {
    /// The conversion is stated over views, by [`ClipRow::clip`]: the error
    /// of an unreadable identifier is the parser's own.
    open spec fn obeys_try_from_spec() -> bool {
        false
    }

    open spec fn try_from_spec(clip: Clip) -> Result<Self, Self::Error> {
        arbitrary()
    }
}

impl TryFrom<Clip> for crate::domain::Clip {
    type Error = ClipError;

    /// Validates a row field by field.
    fn try_from(clip: Clip) -> (r: Result<Self, Self::Error>)
        ensures
            built(r) == clip@.clip(),
    {
        let id = match DatabaseId::from_str(clip.id.as_str()) {
            Ok(id) => id,
            Err(e) => {
                return Err(ClipError::InvalidId(e));
            },
        };
        let content = match field::Content::new(clip.content.as_str()) {
            Ok(content) => content,
            Err(e) => {
                return Err(e);
            },
        };
        let secret = match clip.password {
            Some(secret) => secret,
            None => String::new(),
        };
        let password = match field::Password::new(secret) {
            Ok(password) => password,
            Err(e) => {
                return Err(e);
            },
        };
        let expires_at = match clip.expires_at {
            Some(seconds) => Some(Time::from_naive_utc(seconds)),
            None => None,
        };
        Ok(
            crate::domain::Clip {
                id: field::ClipId::new(id),
                title: field::Title::new(clip.title),
                content,
                shortcode: ShortCode::from(clip.shortcode),
                created_at: field::CreatedAt::new(Time::from_naive_utc(clip.created_at)),
                expires_at: field::ExpiresAt::new(expires_at),
                password,
                hits: field::Hits::new(clip.hits),
            },
        )
    }
}

/// Names the row to fetch.
#[derive(Debug)]
pub struct GetClip {
    pub shortcode: String,
}

impl View for GetClip {
    type V = Seq<char>;

    open spec fn view(&self) -> Seq<char> {
        self.shortcode@
    }
}

impl From<String> for GetClip {
    /// Names the row stored under the code with the given text.
    fn from(shortcode: String) -> (r: Self)
        ensures
            r@ == shortcode@,
    {
        GetClip { shortcode }
    }
}

impl FromSpecImpl<String> for GetClip {
    open spec fn obeys_from_spec() -> bool {
        true
    }

    open spec fn from_spec(shortcode: String) -> Self {
        GetClip { shortcode }
    }
}

impl From<ShortCode> for GetClip {
    /// Names the row stored under `shortcode`.
    fn from(shortcode: ShortCode) -> (r: Self)
        ensures
            r@ == shortcode@,
    {
        GetClip { shortcode: shortcode.into_inner() }
    }
}

impl FromSpecImpl<ShortCode> for GetClip {
    /// The conversion is stated over views.
    open spec fn obeys_from_spec() -> bool {
        false
    }

    open spec fn from_spec(shortcode: ShortCode) -> Self {
        arbitrary()
    }
}

impl From<ask::GetClip> for GetClip {
    /// Names the row that the request is about; the secret plays no part in
    /// the fetch.
    fn from(req: ask::GetClip) -> (r: Self)
        ensures
            r@ == req@.shortcode,
    {
        GetClip { shortcode: req.shortcode.into_inner() }
    }
}

impl FromSpecImpl<ask::GetClip> for GetClip {
    /// The conversion is stated over views.
    open spec fn obeys_from_spec() -> bool {
        false
    }

    open spec fn from_spec(req: ask::GetClip) -> Self {
        arbitrary()
    }
}

/// The values of a row to insert. The hit count of a new row is zero.
#[derive(Debug)]
pub struct NewClip {
    pub id: String,
    pub title: Option<String>,
    pub content: String,
    pub password: Option<String>,
    pub shortcode: String,
    /// Seconds since 1970-01-01 00:00:00 UTC.
    pub created_at: i64,
    /// Seconds since 1970-01-01 00:00:00 UTC.
    pub expires_at: Option<i64>,
}

/// [`NewClip`] as contracts speak of it.
pub struct NewClipRow {
    pub id: Seq<char>,
    pub title: Option<Seq<char>>,
    pub content: Seq<char>,
    pub password: Option<Seq<char>>,
    pub shortcode: Seq<char>,
    pub created_at: i64,
    pub expires_at: Option<i64>,
}

impl NewClipRow {
    /// The row that an insert of these values stores.
    pub open spec fn row(self) -> ClipRow {
        ClipRow {
            id: self.id,
            title: self.title,
            content: self.content,
            shortcode: self.shortcode,
            created_at: self.created_at,
            expires_at: self.expires_at,
            password: self.password,
            hits: 0,
        }
    }

    /// The values to insert for a request, given what the service adds to
    /// it: the bits of the identifier, the code and the creation time.
    pub open spec fn assembled(
        req: ask::NewClipModel,
        id: u128,
        shortcode: Seq<char>,
        created_at: i64,
    ) -> NewClipRow {
        NewClipRow {
            id: uuid_text(id),
            title: req.title,
            content: req.content,
            password: req.password,
            shortcode,
            created_at,
            expires_at: req.expires_at,
        }
    }
}

impl View for NewClip {
    type V = NewClipRow;

    open spec fn view(&self) -> NewClipRow {
        NewClipRow {
            id: self.id@,
            title: text_view(self.title),
            content: self.content@,
            password: text_view(self.password),
            shortcode: self.shortcode@,
            created_at: self.created_at,
            expires_at: self.expires_at,
        }
    }
}

impl NewClip {
    /// The values to insert for a request, given what the service adds to
    /// it.
    pub fn assemble(
        req: ask::NewClip,
        id: DatabaseId,
        shortcode: ShortCode,
        created_at: Time,
    ) -> (r: Self)
        ensures
            r@ == NewClipRow::assembled(req@, id@, shortcode@, created_at@),
            req@.valid(),
            uuid_value(r@.id) == Some(id@),
    {
        let expires_at = match req.expires_at.into_inner() {
            Some(time) => Some(time.to_timestamp()),
            None => None,
        };
        NewClip {
            id: id.into_inner(),
            title: req.title.into_inner(),
            content: req.content.into_inner(),
            password: req.password.into_inner(),
            shortcode: shortcode.into_inner(),
            created_at: created_at.to_timestamp(),
            expires_at,
        }
    }
}

impl From<ask::NewClip> for NewClip {
    /// The values to insert for a request, with a fresh random identifier,
    /// a fresh random code and the clock's reading as the creation time.
    fn from(req: ask::NewClip) -> (r: Self)
        ensures
            exists|id: u128|
                #![trigger is_random_uuid(id)]
                is_random_uuid(id) && uuid_value(r@.id) == Some(id) && r@
                    == NewClipRow::assembled(req@, id, r@.shortcode, r@.created_at),
            is_generated(r@.shortcode),
            req@.valid(),
    {
        let id = DatabaseId::new();
        let r = NewClip::assemble(req, id, ShortCode::default(), Time::now());
        assert(is_random_uuid(id@));
        r
    }
}

impl FromSpecImpl<ask::NewClip> for NewClip {
    /// The conversion draws random values and reads the clock.
    open spec fn obeys_from_spec() -> bool {
        false
    }

    open spec fn from_spec(req: ask::NewClip) -> Self {
        arbitrary()
    }
}

/// The values that an update writes into the row stored under a code.
#[derive(Debug)]
pub struct UpdateClip {
    pub title: Option<String>,
    pub content: String,
    pub password: Option<String>,
    pub shortcode: String,
    /// Seconds since 1970-01-01 00:00:00 UTC.
    pub expires_at: Option<i64>,
}

/// [`UpdateClip`] as contracts speak of it.
pub struct UpdateClipRow {
    pub title: Option<Seq<char>>,
    pub content: Seq<char>,
    pub password: Option<Seq<char>>,
    pub shortcode: Seq<char>,
    pub expires_at: Option<i64>,
}

impl UpdateClipRow {
    /// The row that the update leaves where it finds `row`: the identifier,
    /// the code, the creation time and the hit count stay.
    pub open spec fn applied(self, row: ClipRow) -> ClipRow {
        ClipRow {
            title: self.title,
            content: self.content,
            password: self.password,
            expires_at: self.expires_at,
            ..row
        }
    }

    /// The values that a request writes.
    pub open spec fn of(req: ask::UpdateClipModel) -> UpdateClipRow {
        UpdateClipRow {
            title: req.title,
            content: req.content,
            password: req.password,
            shortcode: req.shortcode,
            expires_at: req.expires_at,
        }
    }
}

impl View for UpdateClip {
    type V = UpdateClipRow;

    open spec fn view(&self) -> UpdateClipRow {
        UpdateClipRow {
            title: text_view(self.title),
            content: self.content@,
            password: text_view(self.password),
            shortcode: self.shortcode@,
            expires_at: self.expires_at,
        }
    }
}

impl From<ask::UpdateClip> for UpdateClip {
    /// The values that a request writes.
    fn from(req: ask::UpdateClip) -> (r: Self)
        ensures
            r@ == UpdateClipRow::of(req@),
            req@.valid(),
    {
        let expires_at = match req.expires_at.into_inner() {
            Some(time) => Some(time.to_timestamp()),
            None => None,
        };
        UpdateClip {
            title: req.title.into_inner(),
            content: req.content.into_inner(),
            password: req.password.into_inner(),
            shortcode: req.shortcode.into_inner(),
            expires_at,
        }
    }
}

impl FromSpecImpl<ask::UpdateClip> for UpdateClip {
    /// The conversion is stated over views.
    open spec fn obeys_from_spec() -> bool {
        false
    }

    open spec fn from_spec(req: ask::UpdateClip) -> Self {
        arbitrary()
    }
}

} // verus!
