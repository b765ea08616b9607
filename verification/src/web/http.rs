//! What the handlers of the pages decide: which page answers a request,
//! with which status, and whether the request counts as a hit.

use crate::data::Database;
use crate::domain::clip::field::Password;
use crate::domain::clip::ClipModel;
use crate::data::DatabaseFaultView;
use crate::service::action::{self, issued, lemma_issue, served};
use crate::service::{ask, ServiceError, ServiceErrorView};
use crate::web::api::{base64_text, encodable};
use crate::web::hit_counter::merged;
use crate::web::ApiKey;
use crate::web::{ctx, form, HitCounter, PageError, PASSWORD_COOKIE};
use crate::{Clip, ShortCode};
use vstd::prelude::*;

verus! {

/// The HTTP statuses that the handlers answer with.
#[derive(Debug, Clone, Copy, PartialEq, Eq, Structural)]
pub enum Status {
    Success,
    BadRequest,
    Unauthorized,
    NotFound,
    InternalServerError,
}

impl Status {
    /// The number of the status.
    pub fn code(&self) -> (r: u16)
        ensures
            r == match self {
                Status::Success => 200u16,
                Status::BadRequest => 400u16,
                Status::Unauthorized => 401u16,
                Status::NotFound => 404u16,
                Status::InternalServerError => 500u16,
            },
    {
        match self {
            Status::Success => 200,
            Status::BadRequest => 400,
            Status::Unauthorized => 401,
            Status::NotFound => 404,
            Status::InternalServerError => 500,
        }
    }
}

/// The page that answers a request, with its context.
#[derive(Debug)]
pub enum Page {
    Home(ctx::Home),
    Clip(ctx::ClipView),
    RequirePassword(ctx::ClipRequirePassword),
    ApiKeyGenerate(ctx::ApiKeyGenerate),
}

/// [`Page`] as contracts speak of it.
pub enum PageModel {
    Home,
    Clip(ClipModel),
    /// The page that asks for the password of the clip under the code.
    RequirePassword(Seq<char>),
    ApiKeyGenerate,
}

impl View for Page {
    type V = PageModel;

    open spec fn view(&self) -> PageModel {
        match self {
            Page::Home(_) => PageModel::Home,
            Page::Clip(context) => PageModel::Clip(context.clip@),
            Page::RequirePassword(context) => PageModel::RequirePassword(context.shortcode()@),
            Page::ApiKeyGenerate(_) => PageModel::ApiKeyGenerate,
        }
    }
}

/// A name with a value, as a cookie or an entry of a page's data is one.
pub open spec fn pair_view(pair: Option<(String, String)>) -> Option<(Seq<char>, Seq<char>)> {
    match pair {
        Some((name, value)) => Some((name@, value@)),
        None => None,
    }
}

/// Texts as sequences of characters.
pub open spec fn texts(lines: Seq<String>) -> Seq<Seq<char>> {
    lines.map_values(|line: String| line@)
}

/// What a handler answers: a page to render with a status, and what goes
/// with it.
#[derive(Debug)]
pub struct Answer {
    pub status: Status,
    pub page: Page,
    /// An entry to add to what the page is rendered from.
    pub data: Option<(String, String)>,
    /// A cookie to set.
    pub cookie: Option<(String, String)>,
    /// The errors to show on the page.
    pub errors: Vec<String>,
}

/// [`Answer`] as contracts speak of it.
pub struct AnswerModel {
    pub status: Status,
    pub page: PageModel,
    pub data: Option<(Seq<char>, Seq<char>)>,
    pub cookie: Option<(Seq<char>, Seq<char>)>,
    pub errors: Seq<Seq<char>>,
}

impl View for Answer {
    type V = AnswerModel;

    open spec fn view(&self) -> AnswerModel {
        AnswerModel {
            status: self.status,
            page: self.page@,
            data: pair_view(self.data),
            cookie: pair_view(self.cookie),
            errors: texts(self.errors@),
        }
    }
}

impl AnswerModel {
    /// The answer that is a page and a status, and nothing more.
    pub open spec fn plain(status: Status, page: PageModel) -> AnswerModel {
        AnswerModel { status, page, data: None, cookie: None, errors: Seq::empty() }
    }
}

/// [`PageError`] as contracts speak of it.
pub enum PageErrorView {
    SerializationError(Seq<char>),
    RenderError(Seq<char>),
    NotFound(Seq<char>),
    InternalError(Seq<char>),
}

impl View for PageError {
    type V = PageErrorView;

    open spec fn view(&self) -> PageErrorView {
        match self {
            PageError::SerializationError(text) => PageErrorView::SerializationError(text@),
            PageError::RenderError(text) => PageErrorView::RenderError(text@),
            PageError::NotFound(text) => PageErrorView::NotFound(text@),
            PageError::InternalError(text) => PageErrorView::InternalError(text@),
        }
    }
}

/// The outcome of a handler that answers with a page, as contracts speak
/// of it. The text of an internal error is the service's and is left open.
pub open spec fn answered(r: Result<Answer, PageError>) -> Result<AnswerModel, Option<PageErrorView>> {
    match r {
        Ok(answer) => Ok(answer@),
        Err(PageError::InternalError(_)) => Err(None),
        Err(e) => Err(Some(e@)),
    }
}

/// The answer without data, cookie or errors.
fn plain(status: Status, page: Page) -> (r: Answer)
    ensures
        r@ == AnswerModel::plain(status, page@),
{
    let r = Answer { status, page, data: None, cookie: None, errors: Vec::new() };
    assert(texts(r.errors@) =~= Seq::empty());
    r
}

/// The answer with one error to show.
fn with_error(status: Status, page: Page, error: &str) -> (r: Answer)
    ensures
        r@ == (AnswerModel { errors: seq![error@], ..AnswerModel::plain(status, page@) }),
{
    let mut errors: Vec<String> = Vec::new();
    errors.push(error.to_owned());
    let r = Answer { status, page, data: None, cookie: None, errors };
    assert(texts(r.errors@) =~= seq![error@]);
    r
}

/// The landing page.
pub fn home() -> (r: Answer)
    ensures
        r@ == AnswerModel::plain(Status::Success, PageModel::Home),
{
    plain(Status::Success, Page::Home(ctx::Home::default()))
}

/// The page that offers to generate an API key.
pub fn api_key() -> (r: Answer)
    ensures
        r@ == AnswerModel::plain(Status::Success, PageModel::ApiKeyGenerate),
{
    plain(Status::Success, Page::ApiKeyGenerate(ctx::ApiKeyGenerate::default()))
}

/// What a failure of the service is to a visitor who asked for a clip:
/// "not found" where there is no such clip, an internal error otherwise.
fn clip_failure(e: &ServiceError) -> (r: PageError)
    requires
        !(e is PermissionError),
    ensures
        e is NotFound ==> r@ == PageErrorView::NotFound("clip not found"@),
        !(e is NotFound) ==> r is InternalError,
{
    match e {
        ServiceError::NotFound => PageError::NotFound("clip not found".to_owned()),
        _ => PageError::InternalError(e.message()),
    }
}

/// The page that answers the visitor who asked for the clip under a code,
/// given what the service made of the request: the clip where it was
/// served, the page that asks for the password where it was denied.
pub open spec fn clip_page(
    code: Seq<char>,
    outcome: Result<ClipModel, ServiceErrorView>,
    denied: AnswerModel,
) -> Result<AnswerModel, Option<PageErrorView>> {
    match outcome {
        Ok(clip) => Ok(AnswerModel::plain(Status::Success, PageModel::Clip(clip))),
        Err(ServiceErrorView::PermissionError(_)) => Ok(denied),
        Err(ServiceErrorView::NotFound) => Err(Some(PageErrorView::NotFound("clip not found"@))),
        Err(_) => Err(None),
    }
}

/// Whether a request for a clip counts as a hit: it does where the clip was
/// served.
pub fn counts_as_hit(outcome: &Result<Clip, ServiceError>) -> (r: bool)
    ensures
        r == outcome.is_ok(),
{
    outcome.is_ok()
}

/// Answers the visitor who asked for the clip under a code, given what the
/// service made of the request.
pub fn show_clip(shortcode: ShortCode, outcome: Result<Clip, ServiceError>) -> (r: Result<
    Answer,
    PageError,
>)
    ensures
        answered(r) == clip_page(
            shortcode@,
            served(outcome),
            AnswerModel::plain(Status::Unauthorized, PageModel::RequirePassword(shortcode@)),
        ),
{
    match outcome {
        Ok(clip) => Ok(plain(Status::Success, Page::Clip(ctx::ClipView::new(clip)))),
        Err(e) => match e {
            ServiceError::PermissionError(_) => Ok(
                plain(
                    Status::Unauthorized,
                    Page::RequirePassword(ctx::ClipRequirePassword::new(shortcode)),
                ),
            ),
            _ => Err(clip_failure(&e)),
        },
    }
}

/// Serves the page of the clip under a code to a visitor who supplies no
/// password, and counts a hit where the clip is served.
pub fn get_clip(shortcode: ShortCode, database: &Database, hit_counter: &mut HitCounter) -> (r:
    Result<Answer, PageError>)
    ensures
        answered(r) == clip_page(
            shortcode@,
            database@.serve_get(ask::GetClipModel { shortcode: shortcode@, password: None }),
            AnswerModel::plain(Status::Unauthorized, PageModel::RequirePassword(shortcode@)),
        ),
        final(hit_counter)@ == if r is Ok && r->Ok_0.status == Status::Success {
            merged(old(hit_counter)@, shortcode@, 1)
        } else {
            old(hit_counter)@
        },
{
    let outcome = action::get_clip(ask::GetClip::from(shortcode.clone()), database);
    if counts_as_hit(&outcome) {
        hit_counter.hit(shortcode.clone(), 1);
    }
    show_clip(shortcode, outcome)
}

/// The cookie that keeps a password for the requests to come.
pub open spec fn password_cookie(password: Option<Seq<char>>) -> (Seq<char>, Seq<char>) {
    (
        PASSWORD_COOKIE@,
        match password {
            Some(secret) => secret,
            None => Seq::empty(),
        },
    )
}

/// Answers the visitor who submitted a password for the clip under a code,
/// given what the service made of the request: the clip, with a cookie that
/// keeps the password, or the page that asks again.
pub fn show_unlocked_clip(
    shortcode: ShortCode,
    password: Password,
    outcome: Result<Clip, ServiceError>,
) -> (r: Result<Answer, PageError>)
    ensures
        answered(r) == match clip_page(
            shortcode@,
            served(outcome),
            AnswerModel {
                errors: seq!["incorrect password"@],
                ..AnswerModel::plain(Status::Success, PageModel::RequirePassword(shortcode@))
            },
        ) {
            Ok(answer) if served(outcome) is Ok => Ok(
                AnswerModel { cookie: Some(password_cookie(password@)), ..answer },
            ),
            other => other,
        },
{
    match outcome {
        Ok(clip) => {
            let secret = match password.into_inner() {
                Some(secret) => secret,
                None => String::new(),
            };
            let mut answer = plain(Status::Success, Page::Clip(ctx::ClipView::new(clip)));
            answer.cookie = Some((PASSWORD_COOKIE.to_owned(), secret));
            Ok(answer)
        },
        Err(e) => match e {
            ServiceError::PermissionError(_) => Ok(
                with_error(
                    Status::Success,
                    Page::RequirePassword(ctx::ClipRequirePassword::new(shortcode)),
                    "incorrect password",
                ),
            ),
            _ => Err(clip_failure(&e)),
        },
    }
}

/// The page that asks for the password of the clip under a code.
pub fn ask_password(shortcode: ShortCode) -> (r: Answer)
    ensures
        r@ == AnswerModel::plain(Status::Success, PageModel::RequirePassword(shortcode@)),
{
    plain(Status::Success, Page::RequirePassword(ctx::ClipRequirePassword::new(shortcode)))
}

/// Serves the page of the clip under a code to a visitor who submits the
/// form that asks for its password. Without a form the page asks for the
/// password.
pub fn submit_clip_password(
    form: Option<form::GetPasswordProtectedClip>,
    shortcode: ShortCode,
    database: &Database,
) -> (r: Result<Answer, PageError>)
    ensures
        form is None ==> answered(r) == Ok::<AnswerModel, Option<PageErrorView>>(
            AnswerModel::plain(Status::Success, PageModel::RequirePassword(shortcode@)),
        ),
        form matches Some(f) ==> answered(r) == match clip_page(
            shortcode@,
            database@.serve_get(ask::GetClipModel { shortcode: shortcode@, password: f.password@ }),
            AnswerModel {
                errors: seq!["incorrect password"@],
                ..AnswerModel::plain(Status::Success, PageModel::RequirePassword(shortcode@))
            },
        ) {
            Ok(answer) if database@.serve_get(
                ask::GetClipModel { shortcode: shortcode@, password: f.password@ },
            ) is Ok => Ok(AnswerModel { cookie: Some(password_cookie(f.password@)), ..answer }),
            other => other,
        },
{
    match form {
        Some(form) => {
            let req = ask::GetClip::new(shortcode.clone(), form.password.clone());
            let outcome = action::get_clip(req, database);
            show_unlocked_clip(shortcode, form.password, outcome)
        },
        None => Ok(ask_password(shortcode)),
    }
}

/// The password that a request carries in its cookie: none without a
/// cookie, or with an empty one.
pub fn cookie_password(cookie: Option<&str>) -> (r: Password)
    ensures
        r@ == match cookie {
            Some(raw) if raw@.len() > 0 => Some(raw@),
            _ => None,
        },
{
    match cookie {
        Some(raw) => match Password::new(raw.to_owned()) {
            Ok(password) => password,
            Err(_) => Password::default(),
        },
        None => Password::default(),
    }
}

/// What answers a request for the bare text of a clip.
#[derive(Debug)]
pub enum Raw {
    /// The text of the clip.
    Content(String),
    /// A page instead of the text.
    Page(Answer),
}

/// [`Raw`] as contracts speak of it.
pub enum RawModel {
    Content(Seq<char>),
    Page(AnswerModel),
}

impl View for Raw {
    type V = RawModel;

    open spec fn view(&self) -> RawModel {
        match self {
            Raw::Content(text) => RawModel::Content(text@),
            Raw::Page(answer) => RawModel::Page(answer@),
        }
    }
}

/// The outcome of a request for the bare text of a clip, as contracts speak
/// of it.
pub open spec fn raw_answered(r: Result<Raw, Status>) -> Result<RawModel, Status> {
    match r {
        Ok(raw) => Ok(raw@),
        Err(status) => Err(status),
    }
}

/// What answers the request for the bare text of the clip under a code,
/// given what the service made of the request.
pub open spec fn raw_clip(code: Seq<char>, outcome: Result<ClipModel, ServiceErrorView>) -> Result<
    RawModel,
    Status,
> {
    match outcome {
        Ok(clip) => Ok(RawModel::Content(clip.content)),
        Err(ServiceErrorView::PermissionError(_)) => Ok(
            RawModel::Page(
                AnswerModel::plain(Status::Unauthorized, PageModel::RequirePassword(code)),
            ),
        ),
        Err(ServiceErrorView::NotFound) => Err(Status::NotFound),
        Err(_) => Err(Status::InternalServerError),
    }
}

/// Answers the request for the bare text of the clip under a code, given
/// what the service made of the request.
pub fn show_raw_clip(shortcode: ShortCode, outcome: Result<Clip, ServiceError>) -> (r: Result<
    Raw,
    Status,
>)
    ensures
        raw_answered(r) == raw_clip(shortcode@, served(outcome)),
{
    match outcome {
        Ok(clip) => Ok(Raw::Content(clip.content.into_inner())),
        Err(e) => match e {
            ServiceError::PermissionError(_) => Ok(
                Raw::Page(
                    plain(
                        Status::Unauthorized,
                        Page::RequirePassword(ctx::ClipRequirePassword::new(shortcode)),
                    ),
                ),
            ),
            ServiceError::NotFound => Err(Status::NotFound),
            _ => Err(Status::InternalServerError),
        },
    }
}

/// Serves the bare text of the clip under a code to a caller who carries
/// the password in a cookie, if any, and counts a hit where the text is
/// served.
pub fn get_raw_clip(
    cookie: Option<&str>,
    shortcode: ShortCode,
    database: &Database,
    hit_counter: &mut HitCounter,
) -> (r: Result<Raw, Status>)
    ensures
        raw_answered(r) == raw_clip(
            shortcode@,
            database@.serve_get(
                ask::GetClipModel {
                    shortcode: shortcode@,
                    password: match cookie {
                        Some(raw) if raw@.len() > 0 => Some(raw@),
                        _ => None,
                    },
                },
            ),
        ),
        final(hit_counter)@ == if r matches Ok(Raw::Content(_)) {
            merged(old(hit_counter)@, shortcode@, 1)
        } else {
            old(hit_counter)@
        },
{
    let req = ask::GetClip::new(shortcode.clone(), cookie_password(cookie));
    let outcome = action::get_clip(req, database);
    if counts_as_hit(&outcome) {
        hit_counter.hit(shortcode.clone(), 1);
    }
    show_raw_clip(shortcode, outcome)
}

/// What a visitor is told of a field of the form that was not accepted: the
/// reason where the field's own validation gave one, a general line
/// otherwise.
pub fn form_error(validation: Option<String>) -> (r: String)
    ensures
        r@ == match validation {
            Some(reason) => reason@,
            None => "An error occurred, please try again"@,
        },
{
    match validation {
        Some(reason) => reason,
        None => "An error occurred, please try again".to_owned(),
    }
}

/// Answers the visitor whose form to create a clip was not accepted: the
/// landing page again, with the errors.
pub fn refuse_form(errors: Vec<String>) -> (r: Answer)
    ensures
        r@ == (AnswerModel {
            errors: texts(errors@),
            ..AnswerModel::plain(Status::BadRequest, PageModel::Home)
        }),
{
    Answer {
        status: Status::BadRequest,
        page: Page::Home(ctx::Home::default()),
        data: None,
        cookie: None,
        errors,
    }
}

/// Answers the visitor who submitted a clip, given what the service made
/// of it: the code of the new clip, to whose page the visitor is sent on,
/// or the landing page again with a line that says that the service failed.
pub fn show_new_clip(outcome: Result<Clip, ServiceError>) -> (r: Result<ShortCode, Answer>)
    ensures
        match served(outcome) {
            Ok(clip) => r is Ok && r->Ok_0@ == clip.shortcode,
            Err(_) => r is Err && r->Err_0@ == (AnswerModel {
                errors: seq!["A server error occurred, please try again"@],
                ..AnswerModel::plain(Status::InternalServerError, PageModel::Home)
            }),
        },
{
    match outcome {
        Ok(clip) => Ok(clip.shortcode),
        Err(_) => Err(
            with_error(
                Status::InternalServerError,
                Page::Home(ctx::Home::default()),
                "A server error occurred, please try again",
            ),
        ),
    }
}

/// Creates the clip of a submitted form and sends the visitor on to its
/// page; a form that was not accepted comes as the errors of its fields.
pub fn new_clip(form: Result<form::NewClip, Vec<String>>, database: &mut Database) -> (r: Result<
    ShortCode,
    Answer,
>)
    ensures
        form matches Err(errors) ==> r is Err && r->Err_0@ == (AnswerModel {
            errors: texts(errors@),
            ..AnswerModel::plain(Status::BadRequest, PageModel::Home)
        }) && final(database)@ == old(database)@,
        form matches Ok(fields) ==> match r {
            Ok(code) => exists|clip: ClipModel|
                #![trigger clip.shortcode]
                clip.shortcode == code@ && old(database)@.creates(
                    fields.request(),
                    final(database)@,
                    Ok(clip),
                ),
            Err(answer) => answer@ == (AnswerModel {
                errors: seq!["A server error occurred, please try again"@],
                ..AnswerModel::plain(Status::InternalServerError, PageModel::Home)
            }) && old(database)@.creates(
                fields.request(),
                final(database)@,
                Err(ServiceErrorView::Data(DatabaseFaultView::UniqueViolation)),
            ),
        },
{
    match form {
        Ok(form) => {
            let outcome = action::new_clip(form.into_request(), database);
            let ghost made = served(outcome);
            let r = show_new_clip(outcome);
            proof {
                if let Ok(clip) = made {
                    assert(clip.shortcode == r->Ok_0@);
                }
            }
            r
        },
        Err(errors) => Err(refuse_form(errors)),
    }
}

/// Answers the visitor who asked for an API key, given what the service
/// made of it: the page with the key in its transport form.
pub fn show_api_key(outcome: Result<ApiKey, ServiceError>) -> (r: Result<
    Answer,
    PageError,
>)
    requires
        outcome matches Ok(api_key) ==> encodable(api_key@.len()),
    ensures
        match outcome {
            Ok(api_key) => r is Ok && r->Ok_0@ == (AnswerModel {
                data: Some(("api_key"@, base64_text(api_key@))),
                ..AnswerModel::plain(Status::Success, PageModel::ApiKeyGenerate)
            }),
            Err(_) => r is Err && r->Err_0 is InternalError,
        },
{
    match outcome {
        Ok(api_key) => {
            let mut answer = plain(
                Status::Success,
                Page::ApiKeyGenerate(ctx::ApiKeyGenerate::default()),
            );
            answer.data = Some(("api_key".to_owned(), api_key.to_base64()));
            Ok(answer)
        },
        Err(e) => Err(PageError::InternalError(e.message())),
    }
}

/// Generates an API key and shows it, once.
pub fn generate_api_key(database: &mut Database) -> (r: Result<Answer, PageError>)
    ensures
        r matches Ok(answer) ==> exists|key: Seq<u8>|
            #![trigger base64_text(key)]
            old(database)@.issues(final(database)@, Ok(key)) && answer@ == (AnswerModel {
                data: Some(("api_key"@, base64_text(key))),
                ..AnswerModel::plain(Status::Success, PageModel::ApiKeyGenerate)
            }),
        r matches Err(e) ==> e is InternalError && old(database)@.issues(
            final(database)@,
            Err(ServiceErrorView::Data(DatabaseFaultView::UniqueViolation)),
        ),
{
    let ghost before = database@;
    let outcome = action::generate_api_key(database);
    proof {
        lemma_issue(before, database@, issued(outcome));
    }
    let ghost made = issued(outcome);
    let r = show_api_key(outcome);
    proof {
        if let Ok(key) = made {
            assert(r->Ok_0@.data == Some(("api_key"@, base64_text(key))));
        }
    }
    r
}

} // verus!
