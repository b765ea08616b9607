//! The operations of the storage gateway.

use crate::data::model;
use crate::data::model::{ClipRow, NewClipRow, UpdateClipRow};
use crate::data::{
    key_at, lemma_holds_id, lemma_key_push, lemma_key_remove, lemma_push, lemma_remove,
    lemma_row, lemma_row_of, lemma_table_wf, rows_distinct, stored_at, table, DataError,
    Database, DatabaseFault, DatabaseFaultView, Tables,
};
use crate::web::ApiKey;
use crate::ShortCode;
use vstd::prelude::*;

pub mod test_helpers;

verus! {

/// The outcome of an operation that hands out a row, as contracts speak of
/// it.
pub open spec fn fetched(r: Result<model::Clip, DataError>) -> Result<ClipRow, DatabaseFaultView> {
    match r {
        Ok(row) => Ok(row@),
        Err(e) => Err(e@),
    }
}

/// The outcome of an operation that hands out nothing, as contracts speak
/// of it.
pub open spec fn done(r: Result<(), DataError>) -> Result<(), DatabaseFaultView> {
    match r {
        Ok(_) => Ok(()),
        Err(e) => Err(e@),
    }
}

/// The outcome of an operation that hands out a key, as contracts speak of
/// it.
pub open spec fn saved(r: Result<ApiKey, DataError>) -> Result<Seq<u8>, DatabaseFaultView> {
    match r {
        Ok(key) => Ok(key@),
        Err(e) => Err(e@),
    }
}

/// What became of a key that was to be revoked.
#[derive(Debug, Clone, Copy, PartialEq, Eq, Structural)]
pub enum RevocationStatus {
    /// The key was in force and no longer is.
    Revoked,
    /// The key was not in force, so nothing was revoked.
    NotFound,
}

impl ClipRow {
    /// Whether the row's expiration lies before `now`.
    pub open spec fn is_expired(self, now: i64) -> bool {
        self.expires_at matches Some(at) && at < now
    }

    /// The row with `hits` more hits.
    pub open spec fn hit(self, hits: i64) -> ClipRow {
        ClipRow { hits: (self.hits + hits) as i64, ..self }
    }
}

impl Tables {
    /// What a fetch of the row under `code` gives.
    pub open spec fn get_clip(self, code: Seq<char>) -> Result<ClipRow, DatabaseFaultView> {
        if self.clips.dom().contains(code) {
            Ok(self.clips[code])
        } else {
            Err(DatabaseFaultView::RowNotFound)
        }
    }

    /// The tables with `row` stored under `code`.
    pub open spec fn with_clip(self, code: Seq<char>, row: ClipRow) -> Tables {
        Tables { clips: self.clips.insert(code, row), ..self }
    }

    /// What an insert does and gives: the row is stored and handed back,
    /// unless its code or its identifier is already taken.
    pub open spec fn new_clip(self, m: NewClipRow) -> (Tables, Result<ClipRow, DatabaseFaultView>) {
        if self.clips.dom().contains(m.shortcode) || self.holds_id(m.id) {
            (self, Err(DatabaseFaultView::UniqueViolation))
        } else {
            (self.with_clip(m.shortcode, m.row()), Ok(m.row()))
        }
    }

    /// What an update does and gives: the row under the code is overwritten
    /// and handed back, where there is one.
    pub open spec fn update_clip(self, m: UpdateClipRow) -> (
        Tables,
        Result<ClipRow, DatabaseFaultView>,
    ) {
        if self.clips.dom().contains(m.shortcode) {
            let row = m.applied(self.clips[m.shortcode]);
            (self.with_clip(m.shortcode, row), Ok(row))
        } else {
            (self, Err(DatabaseFaultView::RowNotFound))
        }
    }

    /// What counting hits does and gives: the row under the code has `hits`
    /// more hits, where there is one. A count never goes down and never
    /// leaves its range.
    pub open spec fn increment_hit(self, code: Seq<char>, hits: i64) -> (
        Tables,
        Result<(), DatabaseFaultView>,
    ) {
        if !self.clips.dom().contains(code) {
            (self, Err(DatabaseFaultView::RowNotFound))
        } else if hits < 0 || self.clips[code].hits + hits > i64::MAX {
            (self, Err(DatabaseFaultView::OutOfRange))
        } else {
            (self.with_clip(code, self.clips[code].hit(hits)), Ok(()))
        }
    }

    /// What saving a key does and gives: the key is in force and handed
    /// back, unless it was in force already.
    pub open spec fn save_api_key(self, key: Seq<u8>) -> (
        Tables,
        Result<Seq<u8>, DatabaseFaultView>,
    ) {
        if self.api_keys.contains(key) {
            (self, Err(DatabaseFaultView::UniqueViolation))
        } else {
            (Tables { api_keys: self.api_keys.insert(key), ..self }, Ok(key))
        }
    }

    /// What revoking a key does and gives: the key is no longer in force.
    pub open spec fn revoke_api_key(self, key: Seq<u8>) -> (Tables, RevocationStatus) {
        if self.api_keys.contains(key) {
            (Tables { api_keys: self.api_keys.remove(key), ..self }, RevocationStatus::Revoked)
        } else {
            (self, RevocationStatus::NotFound)
        }
    }

    /// Whether the key is in force.
    pub open spec fn api_key_is_valid(self, key: Seq<u8>) -> bool {
        self.api_keys.contains(key)
    }

    /// The codes of the rows whose expiration lies before `now`.
    pub open spec fn expired(self, now: i64) -> Set<Seq<char>> {
        Set::new(|code: Seq<char>| self.clips.dom().contains(code) && self.clips[code].is_expired(now))
    }

    /// The tables without the rows whose expiration lies before `now`.
    pub open spec fn delete_expired(self, now: i64) -> Tables {
        Tables { clips: self.clips.remove_keys(self.expired(now)), ..self }
    }
}

/// The position of the row stored under `code`, if there is one.
#[verifier::loop_isolation(false)]
fn position(db: &Database, code: &String) -> (r: Option<usize>)
    ensures
        db@.wf(),
        match r {
            Some(i) => i < db.clips@.len() && db.clips@[i as int]@.shortcode == code@
                && db@.clips.dom().contains(code@) && db@.clips[code@] == db.clips@[i as int]@,
            None => !db@.clips.dom().contains(code@),
        },
{
    proof {
        use_type_invariant(db);
        lemma_table_wf(db.clips@, db.api_keys@);
    }
    let mut i: usize = 0;
    while i < db.clips.len()
        invariant
            i <= db.clips@.len(),
            forall|j: int| 0 <= j < i ==> !stored_at(db.clips@, j, code@),
        decreases db.clips@.len() - i,
    {
        if db.clips[i].shortcode == *code {
            proof {
                lemma_row(db.clips@, i as int);
            }
            return Some(i);
        }
        i += 1;
    }
    None
}

/// Whether some row has the identifier with the given text.
#[verifier::loop_isolation(false)]
fn holds_id(db: &Database, id: &String) -> (r: bool)
    ensures
        r == db@.holds_id(id@),
{
    proof {
        use_type_invariant(db);
        lemma_holds_id(db.clips@, db.api_keys@, id@);
    }
    let mut i: usize = 0;
    while i < db.clips.len()
        invariant
            i <= db.clips@.len(),
            forall|j: int| 0 <= j < i ==> db.clips@[j]@.id != id@,
        decreases db.clips@.len() - i,
    {
        if db.clips[i].id == *id {
            assert(db.clips@[i as int]@.id == id@);
            return true;
        }
        i += 1;
    }
    false
}

/// The position of the key, if it is in force.
#[verifier::loop_isolation(false)]
fn key_position(db: &Database, key: &Vec<u8>) -> (r: Option<usize>)
    ensures
        match r {
            Some(i) => i < db.api_keys@.len() && db.api_keys@[i as int]@ == key@
                && db@.api_keys.contains(key@),
            None => !db@.api_keys.contains(key@),
        },
{
    let mut i: usize = 0;
    while i < db.api_keys.len()
        invariant
            i <= db.api_keys@.len(),
            forall|j: int| 0 <= j < i ==> !key_at(db.api_keys@, j, key@),
        decreases db.api_keys@.len() - i,
    {
        if db.api_keys[i] == *key {
            assert(db.api_keys@[i as int]@ =~= key@);
            assert(key_at(db.api_keys@, i as int, key@));
            return Some(i);
        }
        assert(db.api_keys@[i as int]@ != key@);
        i += 1;
    }
    None
}

/// Fetches the row stored under a code.
pub fn get_clip(m: model::GetClip, db: &Database) -> (r: Result<model::Clip, DataError>)
    ensures
        fetched(r) == db@.get_clip(m@),
        db@.wf(),
{
    match position(db, &m.shortcode) {
        Some(i) => Ok(db.clips[i].clone()),
        None => Err(DataError::DatabaseError(DatabaseFault::RowNotFound)),
    }
}

/// Inserts a row with no hits and hands it back. An insert whose code or
/// identifier is taken fails and changes nothing.
pub fn new_clip(m: model::NewClip, db: &mut Database) -> (r: Result<model::Clip, DataError>)
    ensures
        (final(db)@, fetched(r)) == old(db)@.new_clip(m@),
        final(db)@.wf(),
{
    if position(db, &m.shortcode).is_some() || holds_id(db, &m.id) {
        return Err(DataError::DatabaseError(DatabaseFault::UniqueViolation));
    }
    let row = model::Clip {
        id: m.id,
        title: m.title,
        content: m.content,
        shortcode: m.shortcode,
        created_at: m.created_at,
        expires_at: m.expires_at,
        password: m.password,
        hits: 0,
    };
    let out = row.clone();
    let mut rows = db.take_clips();
    proof {
        lemma_holds_id(rows@, db.api_keys@, row@.id);
        let more = rows@.push(row);
        assert forall|i: int, j: int| 0 <= i < j < more.len() implies more[i]@.shortcode
            != more[j]@.shortcode && more[i]@.id != more[j]@.id by {
            if j == rows@.len() {
                assert(stored_at(rows@, i, more[i]@.shortcode));
            }
        }
        lemma_push(rows@, row);
        lemma_table_wf(more, db.api_keys@);
    }
    rows.push(row);
    db.put_clips(rows);
    Ok(out)
}

/// Overwrites the title, the content, the password and the expiration of
/// the row stored under a code, and hands the row back. An update of a code
/// that is not stored fails and changes nothing.
pub fn update_clip(m: model::UpdateClip, db: &mut Database) -> (r: Result<model::Clip, DataError>)
    ensures
        (final(db)@, fetched(r)) == old(db)@.update_clip(m@),
        final(db)@.wf(),
{
    let i = match position(db, &m.shortcode) {
        Some(i) => i,
        None => {
            return Err(DataError::DatabaseError(DatabaseFault::RowNotFound));
        },
    };
    let mut rows = db.take_clips();
    let ghost before = rows@;
    proof {
        lemma_remove(before, i as int);
    }
    let stored = rows.remove(i);
    let row = model::Clip {
        id: stored.id,
        title: m.title,
        content: m.content,
        shortcode: stored.shortcode,
        created_at: stored.created_at,
        expires_at: m.expires_at,
        password: m.password,
        hits: stored.hits,
    };
    let out = row.clone();
    proof {
        lemma_put_back(before, i as int, row);
        lemma_table_wf(rows@.push(row), db.api_keys@);
    }
    rows.push(row);
    db.put_clips(rows);
    assert(final(db)@ =~= old(db)@.update_clip(m@).0);
    Ok(out)
}

/// A row that takes the place of one with the same code and identifier
/// overwrites it in the table.
proof fn lemma_put_back(rows: Seq<model::Clip>, i: int, row: model::Clip)
    requires
        rows_distinct(rows),
        0 <= i < rows.len(),
        row@.shortcode == rows[i]@.shortcode,
        row@.id == rows[i]@.id,
    ensures
        rows_distinct(rows.remove(i).push(row)),
        table(rows.remove(i).push(row)) == table(rows).insert(row@.shortcode, row@),
{
    let less = rows.remove(i);
    let more = less.push(row);
    lemma_remove(rows, i);
    assert forall|a: int, b: int| 0 <= a < b < more.len() implies more[a]@.shortcode
        != more[b]@.shortcode && more[a]@.id != more[b]@.id by {
        if b == less.len() {
            let a0 = if a < i { a } else { a + 1 };
            assert(more[a] == rows[a0]);
            if a0 < i {
                assert(rows[a0]@.shortcode != rows[i]@.shortcode);
                assert(rows[a0]@.id != rows[i]@.id);
            } else {
                assert(rows[i]@.shortcode != rows[a0]@.shortcode);
                assert(rows[i]@.id != rows[a0]@.id);
            }
        } else {
            assert(more[a] == less[a] && more[b] == less[b]);
        }
    }
    lemma_push(less, row);
    assert(table(rows).remove(row@.shortcode).insert(row@.shortcode, row@) =~= table(rows).insert(
        row@.shortcode,
        row@,
    ));
}

/// Adds `hits` to the hit count of the row stored under a code. Counting
/// for a code that is not stored fails, and so does a count that would go
/// down or leave its range; a failure changes nothing.
pub fn increment_hit(shortcode: &ShortCode, hits: i64, db: &mut Database) -> (r: Result<
    (),
    DataError,
>)
    ensures
        (final(db)@, done(r)) == old(db)@.increment_hit(shortcode@, hits),
        final(db)@.wf(),
{
    let code = shortcode.as_str().to_owned();
    let i = match position(db, &code) {
        Some(i) => i,
        None => {
            return Err(DataError::DatabaseError(DatabaseFault::RowNotFound));
        },
    };
    if hits < 0 || db.clips[i].hits > i64::MAX - hits {
        return Err(DataError::DatabaseError(DatabaseFault::OutOfRange));
    }
    let mut rows = db.take_clips();
    let ghost before = rows@;
    let stored = rows.remove(i);
    let row = model::Clip {
        id: stored.id,
        title: stored.title,
        content: stored.content,
        shortcode: stored.shortcode,
        created_at: stored.created_at,
        expires_at: stored.expires_at,
        password: stored.password,
        hits: stored.hits + hits,
    };
    proof {
        lemma_put_back(before, i as int, row);
        lemma_table_wf(rows@.push(row), db.api_keys@);
    }
    rows.push(row);
    db.put_clips(rows);
    assert(final(db)@ =~= old(db)@.increment_hit(shortcode@, hits).0);
    Ok(())
}

/// Puts a key in force and hands it back. Saving a key that is in force
/// already fails and changes nothing.
pub fn save_api_key(api_key: ApiKey, db: &mut Database) -> (r: Result<ApiKey, DataError>)
    ensures
        (final(db)@, saved(r)) == old(db)@.save_api_key(api_key@),
        final(db)@.wf(),
{
    let bytes = api_key.clone().into_inner();
    proof {
        use_type_invariant(&*db);
        lemma_table_wf(db.clips@, db.api_keys@);
    }
    if key_position(db, &bytes).is_some() {
        return Err(DataError::DatabaseError(DatabaseFault::UniqueViolation));
    }
    let mut keys = db.take_keys();
    proof {
        let more = keys@.push(bytes);
        assert forall|i: int, j: int| 0 <= i < j < more.len() implies more[i]@ != more[j]@ by {
            if j == keys@.len() {
                assert(key_at(keys@, i, more[i]@));
            }
        }
        lemma_key_push(keys@, bytes);
        lemma_table_wf(db.clips@, more);
    }
    keys.push(bytes);
    db.put_keys(keys);
    assert(final(db)@ =~= old(db)@.save_api_key(api_key@).0);
    Ok(api_key)
}

/// Takes a key out of force, and says whether it was in force.
pub fn revoke_api_key(api_key: ApiKey, db: &mut Database) -> (r: Result<
    RevocationStatus,
    DataError,
>)
    ensures
        r is Ok,
        (final(db)@, r->Ok_0) == old(db)@.revoke_api_key(api_key@),
        final(db)@.wf(),
{
    let bytes = api_key.clone().into_inner();
    proof {
        use_type_invariant(&*db);
        lemma_table_wf(db.clips@, db.api_keys@);
    }
    match key_position(db, &bytes) {
        Some(i) => {
            let mut keys = db.take_keys();
            proof {
                lemma_key_remove(keys@, i as int);
                lemma_table_wf(db.clips@, keys@.remove(i as int));
            }
            keys.remove(i);
            db.put_keys(keys);
            assert(final(db)@ =~= old(db)@.revoke_api_key(api_key@).0);
            Ok(RevocationStatus::Revoked)
        },
        None => Ok(RevocationStatus::NotFound),
    }
}

/// Whether a key is in force.
pub fn api_key_is_valid(api_key: ApiKey, db: &Database) -> (r: Result<bool, DataError>)
    ensures
        r is Ok,
        r->Ok_0 == db@.api_key_is_valid(api_key@),
{
    let bytes = api_key.clone().into_inner();
    Ok(key_position(db, &bytes).is_some())
}

/// Deletes every clip whose expiration lies before `now`, and says how
/// many there were.
pub fn delete_expired(now: i64, db: &mut Database) -> (r: Result<u64, DataError>)
    ensures
        final(db)@ == old(db)@.delete_expired(now),
        final(db)@.wf(),
        old(db)@.expired(now).finite(),
        r is Ok,
        r->Ok_0 == old(db)@.expired(now).len(),
{
    let mut rows = db.take_clips();
    let ghost all = rows@;
    assert(all.len() == rows.len());
    let ghost mut gone: Set<Seq<char>> = Set::empty();
    let mut count: u64 = 0;
    let mut i: usize = 0;
    assert(table(all) =~= table(all).remove_keys(gone));
    while i < rows.len()
        invariant
            rows_distinct(all),
            rows_distinct(rows@),
            i <= rows@.len(),
            gone.finite(),
            gone.len() == count,
            count + rows@.len() <= all.len() <= usize::MAX,
            table(rows@) == table(all).remove_keys(gone),
            forall|code: Seq<char>|
                gone.contains(code) ==> table(all).dom().contains(code) && table(
                    all,
                )[code].is_expired(now),
            forall|j: int| 0 <= j < i ==> !(#[trigger] rows@[j])@.is_expired(now),
        decreases rows@.len() - i,
    {
        let expired = match rows[i].expires_at {
            Some(at) => at < now,
            None => false,
        };
        if expired {
            proof {
                let code = rows@[i as int]@.shortcode;
                lemma_row(rows@, i as int);
                lemma_remove(rows@, i as int);
                assert(table(all).remove_keys(gone).remove(code) =~= table(all).remove_keys(
                    gone.insert(code),
                ));
                gone = gone.insert(code);
            }
            rows.remove(i);
            count += 1;
        } else {
            i += 1;
        }
    }
    proof {
        let before = Tables { clips: table(all), api_keys: db@.api_keys };
        assert(gone =~= before.expired(now)) by {
            assert forall|code: Seq<char>| before.expired(now).contains(code) implies gone.contains(
                code,
            ) by {
                if !gone.contains(code) {
                    assert(table(rows@).dom().contains(code));
                    let j = lemma_row_of(rows@, code);
                    assert(!rows@[j]@.is_expired(now));
                }
            }
        }
        lemma_table_wf(rows@, db.api_keys@);
    }
    db.put_clips(rows);
    assert(final(db)@ =~= old(db)@.delete_expired(now));
    Ok(count)
}

impl Tables {
    /// The tables after one sweep at each of the given times, in turn.
    pub open spec fn swept(self, times: Seq<i64>) -> Tables
        decreases times.len(),
    {
        if times.len() == 0 {
            self
        } else {
            self.swept(times.drop_last()).delete_expired(times.last())
        }
    }
}

/// A sweep deletes exactly the expired: a clip whose expiration lies before
/// the time of the sweep is gone, every other clip is as it was.
pub proof fn lemma_sweep(tables: Tables, now: i64, code: Seq<char>)
    requires
        tables.clips.dom().contains(code),
    ensures
        tables.clips[code].is_expired(now) ==> tables.delete_expired(now).get_clip(code) == Err::<
            ClipRow,
            DatabaseFaultView,
        >(DatabaseFaultView::RowNotFound),
        !tables.clips[code].is_expired(now) ==> tables.delete_expired(now).get_clip(code)
            == tables.get_clip(code),
{
}

/// No number of sweeps touches a clip that has not expired at any of their
/// times; one that never expires is such a clip at all times.
pub proof fn lemma_sweeps_keep_the_unexpired(tables: Tables, times: Seq<i64>, code: Seq<char>)
    requires
        tables.clips.dom().contains(code),
        forall|i: int| 0 <= i < times.len() ==> !tables.clips[code].is_expired(times[i]),
    ensures
        tables.swept(times).get_clip(code) == tables.get_clip(code),
    decreases times.len(),
{
    if times.len() > 0 {
        let init = times.drop_last();
        assert forall|i: int| 0 <= i < init.len() implies !tables.clips[code].is_expired(
            init[i],
        ) by {
            assert(init[i] == times[i]);
        }
        lemma_sweeps_keep_the_unexpired(tables, init, code);
        assert(!tables.clips[code].is_expired(times.last()));
        lemma_sweep(tables.swept(init), times.last(), code);
    }
}

/// A clip without an expiration has not expired at any time.
pub proof fn lemma_no_expiration_never_expires(row: ClipRow, now: i64)
    requires
        row.expires_at is None,
    ensures
        !row.is_expired(now),
{
}

/// Every operation of the gateway leaves well-formed tables well formed:
/// each row stays under its own code, and no two rows come to share an
/// identifier.
pub proof fn lemma_operations_keep_tables_well_formed(
    tables: Tables,
    new: NewClipRow,
    update: UpdateClipRow,
    code: Seq<char>,
    hits: i64,
    key: Seq<u8>,
    now: i64,
)
    requires
        tables.wf(),
    ensures
        tables.new_clip(new).0.wf(),
        tables.update_clip(update).0.wf(),
        tables.increment_hit(code, hits).0.wf(),
        tables.save_api_key(key).0.wf(),
        tables.revoke_api_key(key).0.wf(),
        tables.delete_expired(now).wf(),
{
    let created = tables.new_clip(new).0;
    assert(created.wf()) by {
        assert forall|a: Seq<char>, b: Seq<char>|
            #![trigger created.clips[a], created.clips[b]]
            created.clips.dom().contains(a) && created.clips.dom().contains(b)
                && created.clips[a].id == created.clips[b].id implies a == b by {
            if created != tables && a != b {
                if a == new.shortcode {
                    assert(tables.clips.dom().contains(b));
                } else if b == new.shortcode {
                    assert(tables.clips.dom().contains(a));
                }
            }
        }
    }
    let updated = tables.update_clip(update).0;
    assert(updated.wf()) by {
        assert forall|a: Seq<char>, b: Seq<char>|
            #![trigger updated.clips[a], updated.clips[b]]
            updated.clips.dom().contains(a) && updated.clips.dom().contains(b)
                && updated.clips[a].id == updated.clips[b].id implies a == b by {
            assert(updated.clips[a].id == tables.clips[a].id);
            assert(updated.clips[b].id == tables.clips[b].id);
        }
    }
    let counted = tables.increment_hit(code, hits).0;
    assert(counted.wf()) by {
        assert forall|a: Seq<char>, b: Seq<char>|
            #![trigger counted.clips[a], counted.clips[b]]
            counted.clips.dom().contains(a) && counted.clips.dom().contains(b)
                && counted.clips[a].id == counted.clips[b].id implies a == b by {
            assert(counted.clips[a].id == tables.clips[a].id);
            assert(counted.clips[b].id == tables.clips[b].id);
        }
    }
    let swept = tables.delete_expired(now);
    assert(swept.wf()) by {
        assert forall|a: Seq<char>, b: Seq<char>|
            #![trigger swept.clips[a], swept.clips[b]]
            swept.clips.dom().contains(a) && swept.clips.dom().contains(b) && swept.clips[a].id
                == swept.clips[b].id implies a == b by {
            assert(swept.clips[a] == tables.clips[a]);
            assert(swept.clips[b] == tables.clips[b]);
        }
    }
}

/// The hit count of a clip never goes down: neither an update nor counting
/// hits lowers the count of any clip that stays stored.
pub proof fn lemma_hits_never_go_down(
    tables: Tables,
    m: UpdateClipRow,
    counted: Seq<char>,
    hits: i64,
    code: Seq<char>,
)
    requires
        tables.clips.dom().contains(code),
    ensures
        tables.update_clip(m).0.clips.dom().contains(code),
        tables.update_clip(m).0.clips[code].hits == tables.clips[code].hits,
        tables.increment_hit(counted, hits).0.clips.dom().contains(code),
        tables.increment_hit(counted, hits).0.clips[code].hits >= tables.clips[code].hits,
        tables.increment_hit(counted, hits).1 is Ok && code == counted ==> tables.increment_hit(
            counted,
            hits,
        ).0.clips[code].hits == tables.clips[code].hits + hits,
{
}

/// The life of an API key: once saved it is valid; once revoked it is not,
/// and the revocation says that it was in force; to revoke it again, or to
/// revoke a key that was never saved, changes nothing and says "not found".
pub proof fn lemma_api_key_lifecycle(tables: Tables, key: Seq<u8>)
    ensures
        tables.save_api_key(key).0.api_key_is_valid(key),
        tables.save_api_key(key).0.revoke_api_key(key).1 == RevocationStatus::Revoked,
        !tables.save_api_key(key).0.revoke_api_key(key).0.api_key_is_valid(key),
        tables.save_api_key(key).0.revoke_api_key(key).0.revoke_api_key(key) == (
            tables.save_api_key(key).0.revoke_api_key(key).0,
            RevocationStatus::NotFound,
        ),
        !tables.api_key_is_valid(key) ==> tables.revoke_api_key(key) == (
            tables,
            RevocationStatus::NotFound,
        ),
{
}

} // verus!
