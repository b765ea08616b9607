//! API keys: the credentials of programmatic callers.

use crate::data::{Database, DatabaseFaultView, Tables};
use crate::domain::clip::{prefixed, ClipModel};
use crate::service::{action, ask, ServiceError, ServiceErrorView};
use crate::web::hit_counter::merged;
use crate::web::http::{cookie_password, Status};
use crate::web::HitCounter;
use crate::{Clip, ShortCode};
use vstd::prelude::*;
use vstd::std_specs::convert::FromSpecImpl;

verus! {

/// The request header that carries an API key in its transport form.
pub const API_KEY_HEADER: &'static str = "x-api-key";

/// The number of bytes in a generated key.
pub const KEY_LENGTH: usize = 16;

/// The error of the `base64` decoder; nothing is known of what a value holds.
#[verifier::external_type_specification]
#[verifier::external_body]
pub struct ExDecodeError(base64::DecodeError);

/// The transport form of a byte string: what `base64::encode` gives for it,
/// standard alphabet, padded.
pub uninterp spec fn base64_text(bytes: Seq<u8>) -> Seq<char>;

/// The byte string that `base64::decode` reads in a text, where it reads
/// one.
pub uninterp spec fn base64_bytes(text: Seq<char>) -> Option<Seq<u8>>;

/// Whether the encoder can size its output for `len` bytes.
pub open spec fn encodable(len: nat) -> bool {
    len / 3 * 4 + 4 <= usize::MAX
}

/// Calls `base64::encode`. The result goes by the name [`base64_text`], and
/// `base64::decode` reads the same bytes back out of it. The encoder panics
/// where the size of its output does not fit a `usize`.
#[verifier::external_body]
fn encode(bytes: &[u8]) -> (r: String)
    requires
        encodable(bytes@.len()),
    ensures
        r@ == base64_text(bytes@),
        base64_bytes(r@) == Some(bytes@),
{
    base64::encode(bytes)
}

/// Calls `base64::decode`. The result goes by the name [`base64_bytes`]: the
/// bytes where the text decodes, the decoder's error where it does not. The
/// decoder panics where the length of the text is within seven of the
/// largest `usize`: it counts the chunks of eight bytes, rounding up.
#[verifier::external_body]
fn decode(text: &str) -> (r: Result<Vec<u8>, base64::DecodeError>)
    requires
        text.len() + 7 <= usize::MAX,
    ensures
        r matches Ok(bytes) ==> base64_bytes(text@) == Some(bytes@),
        r is Err ==> base64_bytes(text@) is None,
{
    base64::decode(text)
}

/// Calls `rand::random::<u8>`: one byte from the thread's generator, which
/// is cryptographically secure. Nothing is known of the byte.
#[verifier::external_body]
fn random_byte() -> u8 {
    rand::random::<u8>()
}

/// Why an API key was not accepted.
#[derive(Debug)]
pub enum ApiKeyError {
    /// The key is not in force; the text says more.
    NotFound(String),
    /// The text is not the transport form of any key; the text says why.
    DecodeError(String),
}

impl ApiKeyError {
    /// The error in words.
    pub fn message(&self) -> (r: String)
        ensures
            self is NotFound ==> r@ == "API key not found"@,
            self is DecodeError ==> r@ == "invalid API key format"@,
    {
        match self {
            ApiKeyError::NotFound(_) => "API key not found".to_owned(),
            ApiKeyError::DecodeError(_) => "invalid API key format".to_owned(),
        }
    }
}

/// An opaque credential: a string of bytes.
#[derive(Debug)]
pub struct ApiKey(Vec<u8>);

impl View for ApiKey {
    type V = Seq<u8>;

    closed spec fn view(&self) -> Seq<u8> {
        self.0@
    }
}

impl ApiKey {
    /// The key's transport form.
    pub fn to_base64(&self) -> (r: String)
        requires
            encodable(self@.len()),
        ensures
            r@ == base64_text(self@),
            base64_bytes(r@) == Some(self@),
    {
        encode(self.0.as_slice())
    }

    /// Whether the encoder can size the key's transport form; it can for
    /// every key that fits into memory beside its transport form.
    pub fn is_encodable(&self) -> (r: bool)
        ensures
            r == encodable(self@.len()),
    {
        self.0.len() / 3 <= (usize::MAX - 4) / 4
    }

    /// Gives up the bytes.
    pub fn into_inner(self) -> (r: Vec<u8>)
        ensures
            r@ == self@,
    {
        self.0
    }

    /// Reads a key from its transport form.
    pub fn from_str(key: &str) -> (r: Result<Self, ApiKeyError>)
        requires
            key.len() + 7 <= usize::MAX,
        ensures
            r matches Ok(api_key) ==> base64_bytes(key@) == Some(api_key@),
            r is Err ==> base64_bytes(key@) is None && r->Err_0 is DecodeError,
    {
        match decode(key) {
            Ok(bytes) => Ok(ApiKey(bytes)),
            Err(e) => Err(ApiKeyError::DecodeError(e.to_string())),
        }
    }
}

impl Default for ApiKey {
    /// A fresh key: sixteen random bytes.
    fn default() -> (r: Self)
        ensures
            r@.len() == KEY_LENGTH,
    {
        let mut key: Vec<u8> = Vec::new();
        let mut n: usize = 0;
        while n < KEY_LENGTH
            invariant
                n <= KEY_LENGTH,
                key@.len() == n,
            decreases KEY_LENGTH - n,
        {
            key.push(random_byte());
            n += 1;
        }
        ApiKey(key)
    }
}

impl Clone for ApiKey {
    fn clone(&self) -> (r: Self)
        ensures
            r@ == self@,
    {
        ApiKey(self.0.clone())
    }
}

/// [`ApiKeyError`] as contracts speak of it.
pub enum ApiKeyErrorView {
    NotFound(Seq<char>),
    DecodeError(Seq<char>),
}

impl View for ApiKeyError {
    type V = ApiKeyErrorView;

    open spec fn view(&self) -> ApiKeyErrorView {
        match self {
            ApiKeyError::NotFound(text) => ApiKeyErrorView::NotFound(text@),
            ApiKeyError::DecodeError(text) => ApiKeyErrorView::DecodeError(text@),
        }
    }
}

/// Why a programmatic request was not served.
#[derive(Debug)]
pub enum ApiError {
    /// There is no such clip.
    NotFound(String),
    /// The service failed.
    Server(String),
    /// The request is at fault.
    User(String),
    /// The API key was not accepted.
    KeyError(ApiKeyError),
}

/// [`ApiError`] as contracts speak of it.
pub enum ApiErrorView {
    NotFound(Seq<char>),
    Server(Seq<char>),
    User(Seq<char>),
    KeyError(ApiKeyErrorView),
}

impl View for ApiError {
    type V = ApiErrorView;

    open spec fn view(&self) -> ApiErrorView {
        match self {
            ApiError::NotFound(text) => ApiErrorView::NotFound(text@),
            ApiError::Server(text) => ApiErrorView::Server(text@),
            ApiError::User(text) => ApiErrorView::User(text@),
            ApiError::KeyError(e) => ApiErrorView::KeyError(e@),
        }
    }
}

impl ApiError {
    /// The HTTP status that answers the error.
    pub fn status(&self) -> (r: Status)
        ensures
            r == match self {
                ApiError::NotFound(_) => Status::NotFound,
                ApiError::Server(_) => Status::InternalServerError,
                ApiError::User(_) => Status::BadRequest,
                ApiError::KeyError(_) => Status::BadRequest,
            },
    {
        match self {
            ApiError::NotFound(_) => Status::NotFound,
            ApiError::Server(_) => Status::InternalServerError,
            ApiError::User(_) => Status::BadRequest,
            ApiError::KeyError(_) => Status::BadRequest,
        }
    }
}

/// What a failure of the service is to a programmatic caller, where the
/// text is fixed: a clip that is not there, a failure of storage, a denial.
pub open spec fn api_failure(e: ServiceErrorView) -> Option<ApiErrorView> {
    match e {
        ServiceErrorView::Clip(_) => None,
        ServiceErrorView::NotFound => Some(ApiErrorView::NotFound("entity not found"@)),
        ServiceErrorView::Data(_) => Some(ApiErrorView::Server("a server error occurred"@)),
        ServiceErrorView::PermissionError(text) => Some(ApiErrorView::User(text)),
    }
}

impl From<ServiceError> for ApiError {
    /// A clip that is not there is "not found"; a failure of storage is the
    /// server's; a value unfit for a clip and a denial are the caller's.
    fn from(err: ServiceError) -> (r: Self)
        ensures
            match api_failure(err@) {
                Some(e) => r@ == e,
                None => r is User && "clip parsing error: "@.is_prefix_of(r->User_0@),
            },
    {
        match err {
            ServiceError::Clip(c) => ApiError::User(
                prefixed("clip parsing error: ", c.message().as_str()),
            ),
            ServiceError::NotFound => ApiError::NotFound("entity not found".to_owned()),
            ServiceError::Data(_) => ApiError::Server("a server error occurred".to_owned()),
            ServiceError::PermissionError(msg) => ApiError::User(msg),
        }
    }
}

impl FromSpecImpl<ServiceError> for ApiError {
    /// The conversion is stated over views.
    open spec fn obeys_from_spec() -> bool {
        false
    }

    open spec fn from_spec(err: ServiceError) -> Self {
        arbitrary()
    }
}

/// Whether `r` is what the API makes of what the service made of a
/// request: the clip where one was served, the caller's fault where a value
/// is unfit for a clip, and otherwise the error that [`api_failure`] names.
pub open spec fn replies(
    r: Result<Clip, ApiError>,
    outcome: Result<ClipModel, ServiceErrorView>,
) -> bool {
    match outcome {
        Ok(clip) => r is Ok && r->Ok_0@ == clip,
        Err(e) => r is Err && match api_failure(e) {
            Some(failure) => r->Err_0@ == failure,
            None => r->Err_0 is User && "clip parsing error: "@.is_prefix_of(r->Err_0->User_0@),
        },
    }
}

/// Whether the header is too long for the decoder to size its output.
pub open spec fn oversized(header: &str) -> bool {
    header.len() + 7 > usize::MAX
}

/// Reads the API key that a request carries in its header. A request
/// without the header carries no key.
pub fn read_api_key(header: Option<&str>) -> (r: Result<ApiKey, ApiKeyError>)
    ensures
        match header {
            None => r is Err && r->Err_0@ == ApiKeyErrorView::NotFound("API key not found"@),
            Some(text) => if oversized(text) {
                r is Err && r->Err_0@ == ApiKeyErrorView::DecodeError("invalid API key format"@)
            } else {
                match base64_bytes(text@) {
                    Some(bytes) => r is Ok && r->Ok_0@ == bytes,
                    None => r is Err && r->Err_0 is DecodeError,
                }
            },
        },
{
    match header {
        None => Err(ApiKeyError::NotFound("API key not found".to_owned())),
        Some(text) => {
            if text.len() > usize::MAX - 7 {
                Err(ApiKeyError::DecodeError("invalid API key format".to_owned()))
            } else {
                ApiKey::from_str(text)
            }
        },
    }
}

/// Decides whether a key that a request carries lets the request through,
/// given what the service said of the key: a key in force does, a key that
/// is not in force is "not found", and a failure of the service is the
/// server's.
pub fn judge_api_key(api_key: ApiKey, valid: Result<bool, ServiceError>) -> (r: Result<
    ApiKey,
    ApiError,
>)
    ensures
        match valid {
            Ok(true) => r is Ok && r->Ok_0@ == api_key@,
            Ok(false) => r is Err && r->Err_0@ == ApiErrorView::KeyError(
                ApiKeyErrorView::NotFound("API key not found"@),
            ),
            Err(_) => r is Err && r->Err_0@ == ApiErrorView::Server("server error"@),
        },
{
    match valid {
        Ok(true) => Ok(api_key),
        Ok(false) => Err(
            ApiError::KeyError(ApiKeyError::NotFound("API key not found".to_owned())),
        ),
        Err(_) => Err(ApiError::Server("server error".to_owned())),
    }
}

/// Lets a request through that carries an API key in force, and rejects
/// every other: one without a key, one whose key cannot be read, and one
/// whose key is not in force.
pub fn check_api_key(header: Option<&str>, database: &Database) -> (r: Result<ApiKey, ApiError>)
    ensures
        r is Ok <==> admits_header(database@, header),
        r matches Ok(api_key) ==> header matches Some(text) && base64_bytes(text@) == Some(
            api_key@,
        ),
        r matches Err(e) ==> e is KeyError,
{
    match read_api_key(header) {
        Ok(api_key) => {
            let valid = action::api_key_is_valid(api_key.clone(), database);
            judge_api_key(api_key, valid)
        },
        Err(e) => Err(ApiError::KeyError(e)),
    }
}

/// Whether the tables hold the key that a header carries.
pub open spec fn admits_header(tables: Tables, header: Option<&str>) -> bool {
    match header {
        Some(text) => !oversized(text) && match base64_bytes(text@) {
            Some(bytes) => tables.api_key_is_valid(bytes),
            None => false,
        },
        None => false,
    }
}

/// Serves the clip under a code to a programmatic caller who carries an API
/// key in force, and counts a hit where the clip is served. The password is
/// the one that the request carries in its cookie, if any. A request
/// without a key in force is rejected before the service is asked.
pub fn get_clip(
    header: Option<&str>,
    shortcode: &str,
    cookie: Option<&str>,
    database: &Database,
    hit_counter: &mut HitCounter,
) -> (r: Result<Clip, ApiError>)
    ensures
        !admits_header(database@, header) ==> r is Err && r->Err_0 is KeyError && final(hit_counter)@ == old(hit_counter)@,
        admits_header(database@, header) ==> replies(
            r,
            database@.serve_get(
                ask::GetClipModel {
                    shortcode: shortcode@,
                    password: match cookie {
                        Some(raw) if raw@.len() > 0 => Some(raw@),
                        _ => None,
                    },
                },
            ),
        ) && final(hit_counter)@ == if r is Ok {
            merged(old(hit_counter)@, shortcode@, 1)
        } else {
            old(hit_counter)@
        },
{
    match check_api_key(header, database) {
        Ok(_) => {},
        Err(e) => {
            return Err(e);
        },
    }
    let req = ask::GetClip::new(ShortCode::from_str(shortcode), cookie_password(cookie));
    match action::get_clip(req, database) {
        Ok(clip) => {
            hit_counter.hit(ShortCode::from_str(shortcode), 1);
            Ok(clip)
        },
        Err(e) => Err(ApiError::from(e)),
    }
}

/// Creates a clip for a programmatic caller who carries an API key in
/// force. A request without a key in force is rejected before the service
/// is asked, and stores nothing.
pub fn new_clip(header: Option<&str>, req: ask::NewClip, database: &mut Database) -> (r: Result<
    Clip,
    ApiError,
>)
    ensures
        !admits_header(old(database)@, header) ==> r is Err && r->Err_0 is KeyError && final(database)@ == old(database)@,
        admits_header(old(database)@, header) ==> match r {
            Ok(clip) => old(database)@.creates(req@, final(database)@, Ok(clip@)),
            Err(e) => e@ == ApiErrorView::Server("a server error occurred"@) && old(database)@.creates(
                req@,
                final(database)@,
                Err(ServiceErrorView::Data(DatabaseFaultView::UniqueViolation)),
            ),
        },
{
    match check_api_key(header, database) {
        Ok(_) => {},
        Err(e) => {
            return Err(e);
        },
    }
    match action::new_clip(req, database) {
        Ok(clip) => Ok(clip),
        Err(e) => Err(ApiError::from(e)),
    }
}

/// Overwrites a clip for a programmatic caller who carries an API key in
/// force. A request without a key in force is rejected before the service
/// is asked, and changes nothing.
pub fn update_clip(header: Option<&str>, req: ask::UpdateClip, database: &mut Database) -> (r:
    Result<Clip, ApiError>)
    ensures
        !admits_header(old(database)@, header) ==> r is Err && r->Err_0 is KeyError && final(database)@ == old(database)@,
        admits_header(old(database)@, header) ==> final(database)@ == old(database)@.serve_update(req@).0 && replies(r, old(database)@.serve_update(req@).1),
{
    match check_api_key(header, database) {
        Ok(_) => {},
        Err(e) => {
            return Err(e);
        },
    }
    match action::update_clip(req, database) {
        Ok(clip) => Ok(clip),
        Err(e) => Err(ApiError::from(e)),
    }
}

} // verus!
