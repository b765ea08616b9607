//! What the clip service does.

use crate::data::model;
use crate::data::model::{ClipRow, NewClipRow, UpdateClipRow};
use crate::data::query;
use crate::data::query::RevocationStatus;
use crate::data::{
    is_random_uuid, uuid_text, uuid_value, DataError, Database, DatabaseFaultView, Tables,
};
use crate::domain::clip::field::short_code::is_generated;
use crate::domain::clip::field::Password;
use crate::domain::clip::ClipModel;
use crate::domain::time::Time;
use crate::service::ask;
use crate::service::{data_failure, ServiceError, ServiceErrorView};
use crate::web::api::KEY_LENGTH;
use crate::web::ApiKey;
use crate::{Clip, ShortCode};
use vstd::prelude::*;

verus! {

/// The outcome of an action that hands out a clip, as contracts speak of it.
pub open spec fn served(r: Result<Clip, ServiceError>) -> Result<ClipModel, ServiceErrorView> {
    match r {
        Ok(clip) => Ok(clip@),
        Err(e) => Err(e@),
    }
}

/// The outcome of an action that hands out an API key, as contracts speak
/// of it.
pub open spec fn issued(r: Result<ApiKey, ServiceError>) -> Result<Seq<u8>, ServiceErrorView> {
    match r {
        Ok(api_key) => Ok(api_key@),
        Err(e) => Err(e@),
    }
}

/// The clip that the service makes of what the gateway fetched: a failure
/// of the gateway is the service's failure, and so is a row that stands for
/// no clip.
pub open spec fn converted(fetched: Result<ClipRow, DatabaseFaultView>) -> Result<
    ClipModel,
    ServiceErrorView,
> {
    match fetched {
        Ok(row) => match row.clip() {
            Ok(clip) => Ok(clip),
            Err(e) => Err(ServiceErrorView::Clip(e)),
        },
        Err(fault) => Err(data_failure(fault)),
    }
}

/// Whether a clip may be handed to a caller who supplies `password`: a clip
/// without a password is open to all, one with a password to those who
/// supply the same.
pub open spec fn admits(clip: ClipModel, password: Option<Seq<char>>) -> bool {
    clip.password is None || clip.password == password
}

/// What a caller who supplies `password` gets of a clip.
pub open spec fn authorized(clip: ClipModel, password: Option<Seq<char>>) -> Result<
    ClipModel,
    ServiceErrorView,
> {
    if admits(clip, password) {
        Ok(clip)
    } else {
        Err(ServiceErrorView::PermissionError("invalid password"@))
    }
}

/// What a caller who supplies `password` gets of what the gateway fetched.
pub open spec fn resolved(
    password: Option<Seq<char>>,
    fetched: Result<ClipRow, DatabaseFaultView>,
) -> Result<ClipModel, ServiceErrorView> {
    match converted(fetched) {
        Ok(clip) => authorized(clip, password),
        Err(e) => Err(e),
    }
}

impl Tables {
    /// What a caller gets who asks for a clip.
    pub open spec fn serve_get(self, req: ask::GetClipModel) -> Result<ClipModel, ServiceErrorView> {
        resolved(req.password, self.get_clip(req.shortcode))
    }

    /// What storing the values of a new clip does and gives.
    pub open spec fn serve_new(self, m: NewClipRow) -> (
        Tables,
        Result<ClipModel, ServiceErrorView>,
    ) {
        (self.new_clip(m).0, converted(self.new_clip(m).1))
    }

    /// Whether `after` and `outcome` are what creating a clip for `req`
    /// leaves and gives, for some identifier and code that the service
    /// draws at random and some reading of the clock.
    pub open spec fn creates(
        self,
        req: ask::NewClipModel,
        after: Tables,
        outcome: Result<ClipModel, ServiceErrorView>,
    ) -> bool {
        exists|id: u128, code: Seq<char>, now: i64|
            #![trigger NewClipRow::assembled(req, id, code, now)]
            is_random_uuid(id) && is_generated(code) && uuid_value(uuid_text(id)) == Some(id) && (
                after,
                outcome,
            ) == self.serve_new(NewClipRow::assembled(req, id, code, now))
    }

    /// Whether `after` and `outcome` are what issuing an API key leaves and
    /// gives, for some key that the service draws at random.
    pub open spec fn issues(
        self,
        after: Tables,
        outcome: Result<Seq<u8>, ServiceErrorView>,
    ) -> bool {
        exists|key: Seq<u8>|
            #![trigger self.save_api_key(key)]
            key.len() == KEY_LENGTH && after == self.save_api_key(key).0 && outcome
                == match self.save_api_key(key).1 {
                Ok(saved) => Ok::<Seq<u8>, ServiceErrorView>(saved),
                Err(fault) => Err(data_failure(fault)),
            }
    }

    /// What an update does and gives.
    pub open spec fn serve_update(self, req: ask::UpdateClipModel) -> (
        Tables,
        Result<ClipModel, ServiceErrorView>,
    ) {
        (
            self.update_clip(UpdateClipRow::of(req)).0,
            converted(self.update_clip(UpdateClipRow::of(req)).1),
        )
    }
}

/// Makes a clip of what the gateway fetched.
pub fn convert(fetched: Result<model::Clip, DataError>) -> (r: Result<Clip, ServiceError>)
    ensures
        served(r) == converted(query::fetched(fetched)),
{
    match fetched {
        Ok(row) => match Clip::try_from(row) {
            Ok(clip) => Ok(clip),
            Err(e) => Err(ServiceError::from(e)),
        },
        Err(e) => Err(ServiceError::from(e)),
    }
}

/// Hands a clip to a caller who supplies `password`, or denies it.
pub fn authorize(clip: Clip, password: &Password) -> (r: Result<Clip, ServiceError>)
    ensures
        served(r) == authorized(clip@, password@),
{
    if clip.password.has_password() {
        if clip.password == *password {
            Ok(clip)
        } else {
            Err(ServiceError::PermissionError("invalid password".to_owned()))
        }
    } else {
        Ok(clip)
    }
}

/// Decides what a caller who supplies `password` gets of what the gateway
/// fetched: the clip, or "not found", or a denial, or the failure.
pub fn resolve(password: &Password, fetched: Result<model::Clip, DataError>) -> (r: Result<
    Clip,
    ServiceError,
>)
    ensures
        served(r) == resolved(password@, query::fetched(fetched)),
{
    match convert(fetched) {
        Ok(clip) => authorize(clip, password),
        Err(e) => Err(e),
    }
}

/// Serves the clip stored under a code to a caller who may have it.
pub fn get_clip(req: ask::GetClip, db: &Database) -> (r: Result<Clip, ServiceError>)
    ensures
        served(r) == db@.serve_get(req@),
{
    let password = req.password.clone();
    resolve(&password, query::get_clip(model::GetClip::from(req), db))
}

/// Stores the values of a new clip and serves the clip.
pub fn insert_clip(m: model::NewClip, db: &mut Database) -> (r: Result<Clip, ServiceError>)
    ensures
        (final(db)@, served(r)) == old(db)@.serve_new(m@),
        final(db)@.wf(),
{
    convert(query::new_clip(m, db))
}

/// Creates a clip: the service adds a fresh random identifier, a fresh
/// random code and the clock's reading as the creation time, stores the clip
/// and serves it. Where the code or the identifier is taken already the
/// gateway's failure is passed on, and nothing is stored.
pub fn new_clip(req: ask::NewClip, db: &mut Database) -> (r: Result<Clip, ServiceError>)
    ensures
        old(db)@.creates(req@, final(db)@, served(r)),
        req@.valid(),
        final(db)@.wf(),
{
    let ghost asked = req@;
    let m = model::NewClip::from(req);
    proof {
        let id = choose|id: u128|
            #![trigger is_random_uuid(id)]
            is_random_uuid(id) && uuid_value(m@.id) == Some(id) && m@ == NewClipRow::assembled(
                asked,
                id,
                m@.shortcode,
                m@.created_at,
            );
        assert(m@ == NewClipRow::assembled(asked, id, m@.shortcode, m@.created_at));
    }
    insert_clip(m, db)
}

/// Creating a clip fails only where the code or the identifier that the
/// service drew is taken, and then changes nothing. A clip that is created
/// is the request's, fresh: it has no hits, it is stored under its code,
/// and it is served to the caller who supplies the request's password.
pub proof fn lemma_creation(
    tables: Tables,
    req: ask::NewClipModel,
    after: Tables,
    outcome: Result<ClipModel, ServiceErrorView>,
)
    requires
        req.valid(),
        tables.creates(req, after, outcome),
    ensures
        outcome matches Err(e) ==> after == tables && e == ServiceErrorView::Data(
            DatabaseFaultView::UniqueViolation,
        ) && exists|taken: Seq<char>| tables.clips.dom().contains(taken),
        outcome matches Ok(clip) ==> clip.valid() && clip.content == req.content && clip.title
            == req.title && clip.password == req.password && clip.expires_at == req.expires_at
            && clip.hits == 0 && is_generated(clip.shortcode) && is_random_uuid(clip.id)
            && !tables.clips.dom().contains(clip.shortcode) && after.serve_get(
            ask::GetClipModel { shortcode: clip.shortcode, password: req.password },
        ) == outcome,
{
    let (id, code, now) = choose|id: u128, code: Seq<char>, now: i64|
        #![trigger NewClipRow::assembled(req, id, code, now)]
        is_random_uuid(id) && is_generated(code) && uuid_value(uuid_text(id)) == Some(id) && (
            after,
            outcome,
        ) == tables.serve_new(NewClipRow::assembled(req, id, code, now));
    let m = NewClipRow::assembled(req, id, code, now);
    assert(m.row().clip() is Ok);
    if outcome is Err {
        assert(tables.clips.dom().contains(m.shortcode) || tables.holds_id(m.id));
        if tables.holds_id(m.id) {
            let taken = choose|taken: Seq<char>| #[trigger]
                tables.clips.dom().contains(taken) && tables.clips[taken].id == m.id;
            assert(tables.clips.dom().contains(taken));
        }
    }
}

/// Overwrites the clip stored under a code with the fields of the request,
/// and serves the clip as it then is. The code, the identifier, the creation
/// time and the hit count stay. Where nothing is stored under the code the
/// answer is "not found", and nothing changes.
pub fn update_clip(req: ask::UpdateClip, db: &mut Database) -> (r: Result<Clip, ServiceError>)
    ensures
        (final(db)@, served(r)) == old(db)@.serve_update(req@),
        final(db)@.wf(),
{
    convert(query::update_clip(model::UpdateClip::from(req), db))
}

/// Adds `hits` to the hit count of the clip stored under a code.
pub fn increase_hit_count(shortcode: &ShortCode, hits: i64, db: &mut Database) -> (r: Result<
    (),
    ServiceError,
>)
    ensures
        final(db)@ == old(db)@.increment_hit(shortcode@, hits).0,
        final(db)@.wf(),
        match old(db)@.increment_hit(shortcode@, hits).1 {
            Ok(_) => r is Ok,
            Err(fault) => r is Err && r->Err_0@ == data_failure(fault),
        },
{
    match query::increment_hit(shortcode, hits, db) {
        Ok(_) => Ok(()),
        Err(e) => Err(ServiceError::from(e)),
    }
}

/// Creates an API key: sixteen random bytes, put in force. In the event
/// that the very same key is in force already the gateway's failure is
/// passed on, and nothing changes.
pub fn generate_api_key(db: &mut Database) -> (r: Result<ApiKey, ServiceError>)
    ensures
        old(db)@.issues(final(db)@, issued(r)),
        final(db)@.wf(),
{
    let api_key = ApiKey::default();
    assert(api_key@.len() == KEY_LENGTH);
    match query::save_api_key(api_key, db) {
        Ok(api_key) => Ok(api_key),
        Err(e) => Err(ServiceError::from(e)),
    }
}

/// Issuing an API key fails only where the key that the service drew is in
/// force already, and then changes nothing. A key that is issued has
/// sixteen bytes and is in force afterwards.
pub proof fn lemma_issue(tables: Tables, after: Tables, outcome: Result<Seq<u8>, ServiceErrorView>)
    requires
        tables.issues(after, outcome),
    ensures
        outcome matches Err(e) ==> after == tables && e == ServiceErrorView::Data(
            DatabaseFaultView::UniqueViolation,
        ) && exists|key: Seq<u8>| key.len() == KEY_LENGTH && tables.api_key_is_valid(key),
        outcome matches Ok(key) ==> key.len() == KEY_LENGTH && !tables.api_key_is_valid(key)
            && after == tables.save_api_key(key).0 && after.api_key_is_valid(key),
{
    let key = choose|key: Seq<u8>|
        #![trigger tables.save_api_key(key)]
        key.len() == KEY_LENGTH && after == tables.save_api_key(key).0 && outcome
            == match tables.save_api_key(key).1 {
            Ok(saved) => Ok::<Seq<u8>, ServiceErrorView>(saved),
            Err(fault) => Err(data_failure(fault)),
        };
    if outcome is Err {
        assert(tables.api_key_is_valid(key));
    }
}

/// Takes an API key out of force, and says whether it was in force.
pub fn revoke_api_key(api_key: ApiKey, db: &mut Database) -> (r: Result<
    RevocationStatus,
    ServiceError,
>)
    ensures
        r is Ok,
        (final(db)@, r->Ok_0) == old(db)@.revoke_api_key(api_key@),
        final(db)@.wf(),
{
    match query::revoke_api_key(api_key, db) {
        Ok(status) => Ok(status),
        Err(e) => Err(ServiceError::from(e)),
    }
}

/// Whether an API key is in force.
pub fn api_key_is_valid(api_key: ApiKey, db: &Database) -> (r: Result<bool, ServiceError>)
    ensures
        r is Ok,
        r->Ok_0 == db@.api_key_is_valid(api_key@),
{
    match query::api_key_is_valid(api_key, db) {
        Ok(valid) => Ok(valid),
        Err(e) => Err(ServiceError::from(e)),
    }
}

/// Deletes the clips that have expired by the clock's reading, and says how
/// many there were.
pub fn delete_expired(db: &mut Database) -> (r: Result<u64, ServiceError>)
    ensures
        r is Ok,
        exists|now: i64|
            #![trigger old(db)@.delete_expired(now)]
            final(db)@ == old(db)@.delete_expired(now) && old(db)@.expired(now).finite()
                && r->Ok_0 == old(db)@.expired(now).len(),
        final(db)@.wf(),
{
    let now = Time::now().to_timestamp();
    match query::delete_expired(now, db) {
        Ok(count) => Ok(count),
        Err(e) => Err(ServiceError::from(e)),
    }
}

/// A clip that is created without a password is served to every caller,
/// whatever the caller supplies as a password, the empty one included.
pub proof fn lemma_open_clip_is_served(
    tables: Tables,
    req: ask::NewClipModel,
    after: Tables,
    clip: ClipModel,
    supplied: Option<Seq<char>>,
)
    requires
        req.valid(),
        req.password is None,
        tables.creates(req, after, Ok(clip)),
    ensures
        after.serve_get(ask::GetClipModel { shortcode: clip.shortcode, password: supplied })
            == Ok::<ClipModel, ServiceErrorView>(clip),
{
    lemma_creation(tables, req, after, Ok(clip));
}

/// A clip that is created with a password is served to the caller who
/// supplies that password, and denied to every other: to the one who
/// supplies none, and to the one who supplies another.
pub proof fn lemma_password_guards_clip(
    tables: Tables,
    req: ask::NewClipModel,
    after: Tables,
    clip: ClipModel,
    supplied: Option<Seq<char>>,
)
    requires
        req.valid(),
        req.password is Some,
        tables.creates(req, after, Ok(clip)),
    ensures
        supplied == req.password ==> after.serve_get(
            ask::GetClipModel { shortcode: clip.shortcode, password: supplied },
        ) == Ok::<ClipModel, ServiceErrorView>(clip),
        supplied != req.password ==> after.serve_get(
            ask::GetClipModel { shortcode: clip.shortcode, password: supplied },
        ) == Err::<ClipModel, ServiceErrorView>(
            ServiceErrorView::PermissionError("invalid password"@),
        ),
{
    lemma_creation(tables, req, after, Ok(clip));
}

/// A code under which nothing is stored is "not found", whatever the caller
/// supplies as a password.
pub proof fn lemma_unknown_code_is_not_found(tables: Tables, req: ask::GetClipModel)
    requires
        !tables.clips.dom().contains(req.shortcode),
    ensures
        tables.serve_get(req) == Err::<ClipModel, ServiceErrorView>(ServiceErrorView::NotFound),
{
}

/// A denial is never "not found": the two answers differ.
pub proof fn lemma_denied_is_not_absent(clip: ClipModel, supplied: Option<Seq<char>>)
    ensures
        authorized(clip, supplied) != Err::<ClipModel, ServiceErrorView>(
            ServiceErrorView::NotFound,
        ),
{
}

/// An update done twice with the same fields leaves the tables as the
/// first update left them, and serves the same clip both times.
pub proof fn lemma_update_is_idempotent(tables: Tables, req: ask::UpdateClipModel)
    ensures
        tables.serve_update(req).0.serve_update(req) == tables.serve_update(req),
{
    let once = tables.serve_update(req);
    let twice = once.0.serve_update(req);
    assert(twice.0 =~= once.0);
}

/// An update stores the fields of the request, and changes neither the
/// code nor the identifier of any clip: the same codes are stored before
/// and after, each with the identifier, the creation time and the hit count
/// it had.
pub proof fn lemma_update_keeps_identity(
    tables: Tables,
    req: ask::UpdateClipModel,
    code: Seq<char>,
)
    requires
        tables.wf(),
    ensures
        tables.serve_update(req).0.wf(),
        tables.serve_update(req).0.clips.dom() == tables.clips.dom(),
        tables.clips.dom().contains(code) ==> {
            let before = tables.clips[code];
            let after = tables.serve_update(req).0.clips[code];
            &&& after.shortcode == before.shortcode
            &&& after.id == before.id
            &&& after.created_at == before.created_at
            &&& after.hits == before.hits
            &&& code != req.shortcode ==> after == before
            &&& code == req.shortcode ==> after.title == req.title && after.content == req.content
                && after.password == req.password && after.expires_at == req.expires_at
        },
{
    let after = tables.serve_update(req).0;
    assert(after.clips.dom() =~= tables.clips.dom());
    assert forall|a: Seq<char>, b: Seq<char>|
        #![trigger after.clips[a], after.clips[b]]
        after.clips.dom().contains(a) && after.clips.dom().contains(b) && after.clips[a].id
            == after.clips[b].id implies a == b by {
        assert(after.clips[a].id == tables.clips[a].id);
        assert(after.clips[b].id == tables.clips[b].id);
    }
}

/// After a sweep a clip that had expired is "not found", whatever the
/// caller supplies as a password; a clip that had not expired, or never
/// expires, is served as before.
pub proof fn lemma_sweep_removes_the_expired(tables: Tables, now: i64, req: ask::GetClipModel)
    requires
        tables.clips.dom().contains(req.shortcode),
    ensures
        tables.clips[req.shortcode].is_expired(now) ==> tables.delete_expired(now).serve_get(req)
            == Err::<ClipModel, ServiceErrorView>(ServiceErrorView::NotFound),
        !tables.clips[req.shortcode].is_expired(now) ==> tables.delete_expired(now).serve_get(req)
            == tables.serve_get(req),
{
}

} // verus!
