//! What the command-line client decides: the requests that its commands
//! stand for, and where they are sent.

use crate::domain::clip::field::title::kept_text;
use crate::domain::clip::field::{Content, ExpiresAt, Password, Title};
use crate::domain::clip::{prefixed, ClipErrorView};
use crate::service::ask;
use crate::{Clip, ClipError, ShortCode};
use vstd::prelude::*;
use vstd::string::StringExecFns;

verus! {

/// The address of the service where none is given.
pub const DEFAULT_ADDR: &'static str = "http://127.0.0.1:8000";

/// Where the clip under a code is asked for: the address of the service,
/// then the path of the clip.
pub fn clip_address(addr: &str, shortcode: &ShortCode) -> (r: String)
    ensures
        r@ == addr@ + "/api/clip/"@ + shortcode@,
{
    let mut r = prefixed(addr, "/api/clip/");
    r.append(shortcode.as_str());
    r
}

/// Where clips are created and updated: the address of the service, then
/// the path of the clips.
pub fn clips_address(addr: &str) -> (r: String)
    ensures
        r@ == addr@ + "/api/clip"@,
{
    prefixed(addr, "/api/clip")
}

/// The cookie that carries a password to the service; none where no
/// password is set.
pub fn password_cookie(password: &Password) -> (r: Option<String>)
    ensures
        match password@ {
            Some(secret) => r is Some && r->0@ == "password="@ + secret,
            None => r is None,
        },
{
    match password.clone().into_inner() {
        Some(secret) => Some(prefixed("password=", secret.as_str())),
        None => None,
    }
}

/// The outcome of building a request, as contracts speak of it.
pub open spec fn asked<R: View>(r: Result<R, ClipError>) -> Result<R::V, ClipErrorView> {
    match r {
        Ok(req) => Ok(req@),
        Err(e) => Err(e@),
    }
}

/// The request of the command that gets a clip: a password that is missing
/// or empty is none.
pub fn get_request(shortcode: ShortCode, password: Option<String>) -> (r: Result<
    ask::GetClip,
    ClipError,
>)
    ensures
        asked(r) == Ok::<ask::GetClipModel, ClipErrorView>(
            ask::GetClipModel {
                shortcode: shortcode@,
                password: kept_text(
                    match password {
                        Some(secret) => Some(secret@),
                        None => None,
                    },
                ),
            },
        ),
{
    let secret = match password {
        Some(secret) => secret,
        None => String::new(),
    };
    match Password::new(secret) {
        Ok(password) => Ok(ask::GetClip::new(shortcode, password)),
        Err(e) => Err(e),
    }
}

/// The request of the command that creates a clip: what is not given is
/// absent, and content must not be empty.
pub fn new_request(
    title: Option<Title>,
    content: String,
    password: Option<Password>,
    expires_at: Option<ExpiresAt>,
) -> (r: Result<ask::NewClip, ClipError>)
    ensures
        asked(r) == if content@.len() == 0 {
            Err::<ask::NewClipModel, ClipErrorView>(ClipErrorView::EmptyContent)
        } else {
            Ok(
                ask::NewClipModel {
                    title: match title {
                        Some(t) => t@,
                        None => None,
                    },
                    content: content@,
                    password: match password {
                        Some(p) => p@,
                        None => None,
                    },
                    expires_at: match expires_at {
                        Some(at) => at@,
                        None => None,
                    },
                },
            )
        },
{
    let content = match Content::new(content.as_str()) {
        Ok(content) => content,
        Err(e) => {
            return Err(e);
        },
    };
    Ok(
        ask::NewClip {
            title: match title {
                Some(title) => title,
                None => Title::default(),
            },
            content,
            expires_at: match expires_at {
                Some(expires_at) => expires_at,
                None => ExpiresAt::default(),
            },
            password: match password {
                Some(password) => password,
                None => Password::default(),
            },
        },
    )
}

/// The password that the command that updates a clip works with: the given
/// one, or none. It opens the clip as it is, and is the clip's password
/// afterwards.
pub fn update_password(password: Option<Password>) -> (r: Password)
    ensures
        r@ == match password {
            Some(p) => p@,
            None => None,
        },
{
    match password {
        Some(password) => password,
        None => Password::default(),
    }
}

/// The request of the command that updates a clip, given the clip as it
/// is: a title or an expiration that is not given stays as it is; content
/// is always given and must not be empty; the password is the one that the
/// command works with.
pub fn update_request(
    current: Clip,
    title: Option<Title>,
    content: String,
    password: Password,
    expires_at: Option<ExpiresAt>,
    shortcode: ShortCode,
) -> (r: Result<ask::UpdateClip, ClipError>)
    ensures
        asked(r) == if content@.len() == 0 {
            Err::<ask::UpdateClipModel, ClipErrorView>(ClipErrorView::EmptyContent)
        } else {
            Ok(
                ask::UpdateClipModel {
                    title: match title {
                        Some(t) => t@,
                        None => current@.title,
                    },
                    content: content@,
                    password: password@,
                    expires_at: match expires_at {
                        Some(at) => at@,
                        None => current@.expires_at,
                    },
                    shortcode: shortcode@,
                },
            )
        },
{
    let content = match Content::new(content.as_str()) {
        Ok(content) => content,
        Err(e) => {
            return Err(e);
        },
    };
    Ok(
        ask::UpdateClip {
            title: match title {
                Some(title) => title,
                None => current.title,
            },
            content,
            expires_at: match expires_at {
                Some(expires_at) => expires_at,
                None => current.expires_at,
            },
            password,
            shortcode,
        },
    )
}

} // verus!
