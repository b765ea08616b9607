//! What the forms of the pages submit.

use crate::domain::clip::field;
use crate::domain::clip::field::expires_at::trimmed;
use crate::domain::clip::field::title::kept_text;
use crate::domain::time::{midnight_text, utc_seconds};
use crate::service::ask;
use vstd::prelude::*;

verus! {

/// The form that creates a clip.
#[derive(Debug)]
pub struct NewClip {
    pub title: field::Title,
    pub content: field::Content,
    pub password: field::Password,
    pub expires_at: field::ExpiresAt,
}

impl NewClip {
    /// The request that the form stands for: field for field.
    pub open spec fn request(self) -> ask::NewClipModel {
        ask::NewClipModel {
            title: self.title@,
            content: self.content@,
            password: self.password@,
            expires_at: self.expires_at@,
        }
    }

    /// The request that the form stands for: field for field.
    pub fn into_request(self) -> (r: ask::NewClip)
        ensures
            r@ == self.request(),
    {
        ask::NewClip {
            title: self.title,
            content: self.content,
            password: self.password,
            expires_at: self.expires_at,
        }
    }
}

/// Whether the fields of the form that creates a clip are accepted: there
/// is content, and the expiration is empty or a date.
pub open spec fn accepted(content: Seq<char>, expires_at: Seq<char>) -> bool {
    content.len() > 0 && (trimmed(expires_at).len() == 0 || utc_seconds(midnight_text(expires_at))
        is Some)
}

impl NewClip {
    /// Reads the form from the texts of its fields. Every text is a title,
    /// and every text a password; the empty one is none. Content must not
    /// be empty, and the expiration must be empty or a date. Where a field
    /// is not accepted the form is refused, with one line for each such
    /// field, content first.
    pub fn from_values(title: &str, content: &str, password: &str, expires_at: &str) -> (r: Result<
        Self,
        Vec<String>,
    >)
        ensures
            r is Ok <==> accepted(content@, expires_at@),
            r matches Ok(form) ==> form.title@ == kept_text(Some(title@)) && form.content@
                == content@ && form.password@ == kept_text(Some(password@)) && form.expires_at@
                == if trimmed(expires_at@).len() == 0 {
                None
            } else {
                utc_seconds(midnight_text(expires_at@))
            },
            r matches Err(errors) ==> {
                let dated = trimmed(expires_at@).len() == 0 || utc_seconds(
                    midnight_text(expires_at@),
                ) is Some;
                &&& content@.len() == 0 && dated ==> errors@.len() == 1 && errors@[0]@
                    == "empty content"@
                &&& content@.len() == 0 && !dated ==> errors@.len() == 2 && errors@[0]@
                    == "empty content"@ && "date parse error, "@.is_prefix_of(errors@[1]@)
                &&& content@.len() > 0 ==> errors@.len() == 1 && "date parse error, "@.is_prefix_of(
                    errors@[0]@,
                )
            },
    {
        let mut errors: Vec<String> = Vec::new();
        let content = match field::Content::new(content) {
            Ok(content) => Some(content),
            Err(e) => {
                errors.push(e.message());
                None
            },
        };
        let expires_at = match field::ExpiresAt::from_value(expires_at) {
            Ok(expires_at) => Some(expires_at),
            Err(e) => {
                errors.push(e.message());
                None
            },
        };
        let password = match field::Password::from_str(password) {
            Ok(password) => password,
            Err(_) => field::Password::default(),
        };
        match (content, expires_at) {
            (Some(content), Some(expires_at)) => Ok(
                NewClip { title: field::Title::from_str(title), content, password, expires_at },
            ),
            _ => Err(errors),
        }
    }
}

/// The form that submits the password of a clip.
#[derive(Debug)]
pub struct GetPasswordProtectedClip {
    pub password: field::Password,
}

impl GetPasswordProtectedClip {
    /// Reads the form from the text of its field; the empty text is no
    /// password.
    pub fn from_value(password: &str) -> (r: Self)
        ensures
            r.password@ == kept_text(Some(password@)),
    {
        let password = match field::Password::from_str(password) {
            Ok(password) => password,
            Err(_) => field::Password::default(),
        };
        GetPasswordProtectedClip { password }
    }
}

} // verus!
