//! What the service offers to the web: API keys, the hit counter, the
//! contexts of the pages and the decisions of the request handlers.

use vstd::prelude::*;
use vstd::std_specs::convert::FromSpecImpl;

pub mod api;
pub mod ctx;
pub mod form;
pub mod hit_counter;
pub mod http;

pub use api::ApiKey;
pub use hit_counter::HitCounter;

verus! {

/// The cookie that carries the password of a clip.
pub const PASSWORD_COOKIE: &'static str = "password";

/// The error of the template engine; nothing is known of what a value
/// holds.
#[verifier::external_type_specification]
#[verifier::external_body]
pub struct ExRenderError(handlebars::RenderError);

/// The error of the JSON serializer; nothing is known of what a value
/// holds.
#[verifier::external_type_specification]
#[verifier::external_body]
pub struct ExJsonError(serde_json::Error);

/// Why a page could not be served.
#[derive(Debug)]
pub enum PageError {
    /// The context of the page could not be serialized.
    SerializationError(String),
    /// The template could not be rendered.
    RenderError(String),
    /// There is no such page.
    NotFound(String),
    /// The service failed.
    InternalError(String),
}

impl PageError {
    /// The HTTP status that answers the error: 404 where the page is not
    /// there, 500 otherwise.
    pub fn status(&self) -> (r: u16)
        ensures
            r == if self is NotFound {
                404u16
            } else {
                500u16
            },
    {
        match self {
            PageError::NotFound(_) => 404,
            _ => 500,
        }
    }

    /// The text that the error carries.
    pub fn message(&self) -> (r: &str)
        ensures
            r@ == match self {
                PageError::SerializationError(text) => text@,
                PageError::RenderError(text) => text@,
                PageError::NotFound(text) => text@,
                PageError::InternalError(text) => text@,
            },
    {
        match self {
            PageError::SerializationError(text) => text.as_str(),
            PageError::RenderError(text) => text.as_str(),
            PageError::NotFound(text) => text.as_str(),
            PageError::InternalError(text) => text.as_str(),
        }
    }
}

impl From<handlebars::RenderError> for PageError {
    /// A failure to render, with the engine's words.
    fn from(err: handlebars::RenderError) -> (r: Self)
        ensures
            r is RenderError,
    {
        PageError::RenderError(err.to_string())
    }
}

impl FromSpecImpl<handlebars::RenderError> for PageError {
    /// The text is the engine's.
    open spec fn obeys_from_spec() -> bool {
        false
    }

    open spec fn from_spec(err: handlebars::RenderError) -> Self {
        arbitrary()
    }
}

impl From<serde_json::Error> for PageError {
    /// A failure to serialize, with the serializer's words.
    fn from(err: serde_json::Error) -> (r: Self)
        ensures
            r is SerializationError,
    {
        PageError::SerializationError(err.to_string())
    }
}

impl FromSpecImpl<serde_json::Error> for PageError {
    /// The text is the serializer's.
    open spec fn obeys_from_spec() -> bool {
        false
    }

    open spec fn from_spec(err: serde_json::Error) -> Self {
        arbitrary()
    }
}

} // verus!
