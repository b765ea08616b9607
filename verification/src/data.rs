//! The storage gateway: identifiers, failures, rows and the operations on
//! the tables that hold them.

use vstd::prelude::*;

pub mod model;
pub mod query;

use crate::domain::clip::prefixed;
use model::ClipRow;

verus! {

/// The error of the `uuid` crate; nothing is known of what a value holds.
#[verifier::external_type_specification]
#[verifier::external_body]
pub struct ExUuidError(uuid::Error);

/// The text of an identifier: what `Uuid::to_hyphenated` formats for the
/// identifier with the given 128 bits, big end first.
pub uninterp spec fn uuid_text(value: u128) -> Seq<char>;

/// The 128 bits of the identifier that `Uuid::parse_str` reads in a text,
/// big end first, where it reads one.
pub uninterp spec fn uuid_value(text: Seq<char>) -> Option<u128>;

/// Whether the bits are those of a random identifier: version 4 in the high
/// half of the seventh byte, the RFC 4122 variant at the top of the ninth.
pub open spec fn is_random_uuid(value: u128) -> bool {
    (value >> 76u128) & 0xfu128 == 4 && (value >> 62u128) & 0x3u128 == 2
}

/// Calls `Uuid::to_hyphenated` on the identifier made by `Uuid::from_u128`
/// and collects the text. The result goes by the name [`uuid_text`], and
/// `Uuid::parse_str` reads the same bits back out of it.
#[verifier::external_body]
fn hyphenated(value: u128) -> (r: String)
    ensures
        r@ == uuid_text(value),
        uuid_value(r@) == Some(value),
{
    uuid::Uuid::from_u128(value).to_hyphenated().to_string()
}

/// Calls `Uuid::parse_str` and, on success, `Uuid::as_u128`. The result
/// goes by the name [`uuid_value`]: the bits where the text parses, the
/// parser's error where it does not.
#[verifier::external_body]
fn parse_uuid(text: &str) -> (r: Result<u128, uuid::Error>)
    ensures
        r matches Ok(value) ==> uuid_value(text@) == Some(value),
        r is Err ==> uuid_value(text@) is None,
{
    let id = uuid::Uuid::parse_str(text)?;
    Ok(id.as_u128())
}

/// Calls `Uuid::new_v4` and `Uuid::as_u128`. The bits are drawn from the
/// operating system's random source, then stamped with version 4 and the
/// RFC 4122 variant; only the stamp is known of them.
#[verifier::external_body]
fn random_uuid() -> (r: u128)
    ensures
        is_random_uuid(r),
{
    uuid::Uuid::new_v4().as_u128()
}

/// The identifier of a row: a UUID, held as its 128 bits.
#[derive(Debug, Clone, Copy, PartialEq, Eq, Structural)]
pub struct DatabaseId(u128);

impl View for DatabaseId {
    type V = u128;

    closed spec fn view(&self) -> u128 {
        self.0
    }
}

impl DatabaseId {
    /// A fresh random identifier.
    pub fn new() -> (r: Self)
        ensures
            is_random_uuid(r@),
    {
        DatabaseId(random_uuid())
    }

    /// The identifier whose bits are all zero.
    pub fn nil() -> (r: Self)
        ensures
            r@ == 0,
    {
        DatabaseId(0)
    }

    /// The identifier as hyphenated lower-case text.
    pub fn into_inner(self) -> (r: String)
        ensures
            r@ == uuid_text(self@),
            uuid_value(r@) == Some(self@),
    {
        hyphenated(self.0)
    }

    /// Reads an identifier from its text.
    pub fn from_str(s: &str) -> (r: Result<Self, uuid::Error>)
        ensures
            r matches Ok(id) ==> uuid_value(s@) == Some(id@),
            r is Err ==> uuid_value(s@) is None,
    {
        match parse_uuid(s) {
            Ok(value) => Ok(DatabaseId(value)),
            Err(e) => Err(e),
        }
    }
}

impl Default for DatabaseId {
    /// A fresh random identifier, as [`DatabaseId::new`] makes one.
    fn default() -> (r: Self)
        ensures
            is_random_uuid(r@),
    {
        Self::new()
    }
}

/// How the engine behind the gateway failed.
#[derive(Debug)]
pub enum DatabaseFault {
    /// The row asked for is not in the table.
    RowNotFound,
    /// A value that must be unique in its column is already there.
    UniqueViolation,
    /// A value would leave the range that its column admits.
    OutOfRange,
    /// Any other failure, with the engine's own words.
    Other(String),
}

/// [`DatabaseFault`] with texts as sequences of characters.
pub enum DatabaseFaultView {
    RowNotFound,
    UniqueViolation,
    OutOfRange,
    Other(Seq<char>),
}

impl View for DatabaseFault {
    type V = DatabaseFaultView;

    open spec fn view(&self) -> DatabaseFaultView {
        match self {
            DatabaseFault::RowNotFound => DatabaseFaultView::RowNotFound,
            DatabaseFault::UniqueViolation => DatabaseFaultView::UniqueViolation,
            DatabaseFault::OutOfRange => DatabaseFaultView::OutOfRange,
            DatabaseFault::Other(text) => DatabaseFaultView::Other(text@),
        }
    }
}

/// A failure of the storage gateway.
#[derive(Debug)]
pub enum DataError {
    /// The engine failed.
    DatabaseError(DatabaseFault),
}

impl View for DataError {
    type V = DatabaseFaultView;

    open spec fn view(&self) -> DatabaseFaultView {
        match self {
            DataError::DatabaseError(fault) => fault@,
        }
    }
}

/// The two tables as contracts speak of them: the clips by their code, and
/// the API keys that are in force.
#[verifier::ext_equal]
pub struct Tables {
    pub clips: Map<Seq<char>, ClipRow>,
    pub api_keys: Set<Seq<u8>>,
}

impl Tables {
    /// What the gateway keeps true of the tables: every row is stored under
    /// its own code, and no two rows share an identifier.
    pub open spec fn wf(self) -> bool {
        &&& forall|code: Seq<char>| #[trigger]
            self.clips.dom().contains(code) ==> self.clips[code].shortcode == code
        &&& forall|a: Seq<char>, b: Seq<char>|
            #![trigger self.clips[a], self.clips[b]]
            self.clips.dom().contains(a) && self.clips.dom().contains(b) && self.clips[a].id
                == self.clips[b].id ==> a == b
    }

    /// The tables with nothing in them.
    pub open spec fn empty() -> Tables {
        Tables { clips: Map::empty(), api_keys: Set::empty() }
    }

    /// Whether some row has the identifier with the given text.
    pub open spec fn holds_id(self, id: Seq<char>) -> bool {
        exists|code: Seq<char>| #[trigger]
            self.clips.dom().contains(code) && self.clips[code].id == id
    }
}

/// The tables behind the gateway, held in memory: the clips and the API
/// keys. No two clips share a code or an identifier, and no key is stored
/// twice.
#[derive(Debug)]
pub struct Database {
    clips: Vec<model::Clip>,
    api_keys: Vec<Vec<u8>>,
}

/// Whether `code` is the code of the row at `i`.
spec fn stored_at(rows: Seq<model::Clip>, i: int, code: Seq<char>) -> bool {
    0 <= i < rows.len() && rows[i]@.shortcode == code
}

/// Whether `key` is the key at `i`.
spec fn key_at(keys: Seq<Vec<u8>>, i: int, key: Seq<u8>) -> bool {
    0 <= i < keys.len() && keys[i]@ == key
}

/// The rows by their code.
spec fn table(rows: Seq<model::Clip>) -> Map<Seq<char>, ClipRow> {
    Map::new(
        |code: Seq<char>| exists|i: int| stored_at(rows, i, code),
        |code: Seq<char>| rows[choose|i: int| stored_at(rows, i, code)]@,
    )
}

/// The keys as a set.
spec fn key_set(keys: Seq<Vec<u8>>) -> Set<Seq<u8>> {
    Set::new(|key: Seq<u8>| exists|i: int| key_at(keys, i, key))
}

/// No two rows share a code or an identifier.
spec fn rows_distinct(rows: Seq<model::Clip>) -> bool {
    &&& forall|i: int, j: int|
        0 <= i < j < rows.len() ==> rows[i]@.shortcode != rows[j]@.shortcode
    &&& forall|i: int, j: int| 0 <= i < j < rows.len() ==> rows[i]@.id != rows[j]@.id
}

/// No key occurs twice.
spec fn keys_distinct(keys: Seq<Vec<u8>>) -> bool {
    forall|i: int, j: int| 0 <= i < j < keys.len() ==> keys[i]@ != keys[j]@
}

/// A row of the sequence is in the table, under its code.
proof fn lemma_row(rows: Seq<model::Clip>, i: int)
    requires
        rows_distinct(rows),
        0 <= i < rows.len(),
    ensures
        table(rows).dom().contains(rows[i]@.shortcode),
        table(rows)[rows[i]@.shortcode] == rows[i]@,
{
    let code = rows[i]@.shortcode;
    assert(stored_at(rows, i, code));
    let j = choose|j: int| stored_at(rows, j, code);
    assert(j == i) by {
        if j < i {
            assert(rows[j]@.shortcode != rows[i]@.shortcode);
        } else if i < j {
            assert(rows[i]@.shortcode != rows[j]@.shortcode);
        }
    }
}

/// A code in the table is the code of a row of the sequence.
proof fn lemma_row_of(rows: Seq<model::Clip>, code: Seq<char>) -> (i: int)
    requires
        rows_distinct(rows),
        table(rows).dom().contains(code),
    ensures
        stored_at(rows, i, code),
        table(rows)[code] == rows[i]@,
{
    let i = choose|i: int| stored_at(rows, i, code);
    lemma_row(rows, i);
    i
}

/// The table of distinct rows is well formed.
proof fn lemma_table_wf(rows: Seq<model::Clip>, keys: Seq<Vec<u8>>)
    requires
        rows_distinct(rows),
    ensures
        (Tables { clips: table(rows), api_keys: key_set(keys) }).wf(),
{
    let t = Tables { clips: table(rows), api_keys: key_set(keys) };
    assert forall|code: Seq<char>| #[trigger] t.clips.dom().contains(code) implies t.clips[code].shortcode
        == code by {
        lemma_row_of(rows, code);
    }
    assert forall|a: Seq<char>, b: Seq<char>|
        #![trigger t.clips[a], t.clips[b]]
        t.clips.dom().contains(a) && t.clips.dom().contains(b) && t.clips[a].id
            == t.clips[b].id implies a == b by {
        let i = lemma_row_of(rows, a);
        let j = lemma_row_of(rows, b);
        if i < j {
            assert(rows[i]@.id != rows[j]@.id);
        } else if j < i {
            assert(rows[j]@.id != rows[i]@.id);
        }
    }
}

/// Whether some row of the sequence has the identifier is whether the table
/// holds it.
proof fn lemma_holds_id(rows: Seq<model::Clip>, keys: Seq<Vec<u8>>, id: Seq<char>)
    requires
        rows_distinct(rows),
    ensures
        (Tables { clips: table(rows), api_keys: key_set(keys) }).holds_id(id) <==> exists|i: int|
            0 <= i < rows.len() && #[trigger] rows[i]@.id == id,
{
    let t = Tables { clips: table(rows), api_keys: key_set(keys) };
    if t.holds_id(id) {
        let code = choose|code: Seq<char>| #[trigger]
            t.clips.dom().contains(code) && t.clips[code].id == id;
        let i = lemma_row_of(rows, code);
        assert(rows[i]@.id == id);
    }
    if exists|i: int| 0 <= i < rows.len() && #[trigger] rows[i]@.id == id {
        let i = choose|i: int| 0 <= i < rows.len() && #[trigger] rows[i]@.id == id;
        lemma_row(rows, i);
        assert(t.clips.dom().contains(rows[i]@.shortcode));
    }
}

/// A row added at the end is a row inserted into the table.
proof fn lemma_push(rows: Seq<model::Clip>, row: model::Clip)
    requires
        rows_distinct(rows.push(row)),
    ensures
        rows_distinct(rows),
        table(rows.push(row)) == table(rows).insert(row@.shortcode, row@),
{
    let more = rows.push(row);
    let m1 = table(more);
    let m2 = table(rows).insert(row@.shortcode, row@);
    assert(rows_distinct(rows)) by {
        assert forall|i: int, j: int| 0 <= i < j < rows.len() implies rows[i]@.shortcode
            != rows[j]@.shortcode && rows[i]@.id != rows[j]@.id by {
            assert(more[i] == rows[i] && more[j] == rows[j]);
        }
    }
    assert forall|code: Seq<char>| m1.dom().contains(code) <==> m2.dom().contains(code) by {
        if m1.dom().contains(code) {
            let i = choose|i: int| stored_at(more, i, code);
            if i < rows.len() {
                assert(more[i] == rows[i]);
                assert(stored_at(rows, i, code));
            }
        }
        if m2.dom().contains(code) {
            if code == row@.shortcode {
                assert(stored_at(more, rows.len() as int, code));
            } else {
                let i = choose|i: int| stored_at(rows, i, code);
                assert(more[i] == rows[i]);
                assert(stored_at(more, i, code));
            }
        }
    }
    assert(m1.dom() =~= m2.dom());
    assert forall|code: Seq<char>| m1.dom().contains(code) implies m1[code] == m2[code] by {
        if code == row@.shortcode {
            lemma_row(more, rows.len() as int);
        } else {
            let i = lemma_row_of(rows, code);
            assert(more[i] == rows[i]);
            lemma_row(more, i);
        }
    }
    assert(m1 =~= m2);
}

/// A row taken out of the sequence is a row removed from the table.
proof fn lemma_remove(rows: Seq<model::Clip>, i: int)
    requires
        rows_distinct(rows),
        0 <= i < rows.len(),
    ensures
        rows_distinct(rows.remove(i)),
        table(rows.remove(i)) == table(rows).remove(rows[i]@.shortcode),
{
    let less = rows.remove(i);
    let gone = rows[i]@.shortcode;
    let m1 = table(less);
    let m2 = table(rows).remove(gone);
    assert forall|a: int, b: int| 0 <= a < b < less.len() implies less[a]@.shortcode
        != less[b]@.shortcode && less[a]@.id != less[b]@.id by {
        let a0 = if a < i { a } else { a + 1 };
        let b0 = if b < i { b } else { b + 1 };
        assert(less[a] == rows[a0] && less[b] == rows[b0]);
        assert(rows[a0]@.shortcode != rows[b0]@.shortcode);
        assert(rows[a0]@.id != rows[b0]@.id);
    }
    assert forall|code: Seq<char>| m1.dom().contains(code) <==> m2.dom().contains(code) by {
        if m1.dom().contains(code) {
            let a = choose|a: int| stored_at(less, a, code);
            let a0 = if a < i { a } else { a + 1 };
            assert(less[a] == rows[a0]);
            assert(stored_at(rows, a0, code));
            if a0 < i {
                assert(rows[a0]@.shortcode != rows[i]@.shortcode);
            } else {
                assert(rows[i]@.shortcode != rows[a0]@.shortcode);
            }
        }
        if m2.dom().contains(code) {
            let a0 = choose|a0: int| stored_at(rows, a0, code);
            let a = if a0 < i { a0 } else { a0 - 1 };
            assert(less[a] == rows[a0]);
            assert(stored_at(less, a, code));
        }
    }
    assert(m1.dom() =~= m2.dom());
    assert forall|code: Seq<char>| m1.dom().contains(code) implies m1[code] == m2[code] by {
        let a = lemma_row_of(less, code);
        let a0 = if a < i { a } else { a + 1 };
        assert(less[a] == rows[a0]);
        lemma_row(rows, a0);
    }
    assert(m1 =~= m2);
}

/// A key added at the end is a key inserted into the set.
proof fn lemma_key_push(keys: Seq<Vec<u8>>, key: Vec<u8>)
    ensures
        key_set(keys.push(key)) =~= key_set(keys).insert(key@),
{
    let more = keys.push(key);
    assert forall|k: Seq<u8>| key_set(more).contains(k) implies key_set(keys).insert(
        key@,
    ).contains(k) by {
        let i = choose|i: int| key_at(more, i, k);
        if i < keys.len() {
            assert(key_at(keys, i, k));
        }
    }
    assert forall|k: Seq<u8>| key_set(keys).insert(key@).contains(k) implies key_set(
        more,
    ).contains(k) by {
        if k == key@ {
            assert(key_at(more, keys.len() as int, k));
        } else {
            let i = choose|i: int| key_at(keys, i, k);
            assert(more[i] == keys[i]);
            assert(key_at(more, i, k));
        }
    }
}

/// A key taken out of the sequence is a key removed from the set.
proof fn lemma_key_remove(keys: Seq<Vec<u8>>, i: int)
    requires
        keys_distinct(keys),
        0 <= i < keys.len(),
    ensures
        keys_distinct(keys.remove(i)),
        key_set(keys.remove(i)) =~= key_set(keys).remove(keys[i]@),
{
    let less = keys.remove(i);
    assert forall|a: int, b: int| 0 <= a < b < less.len() implies less[a]@ != less[b]@ by {
        let a0 = if a < i { a } else { a + 1 };
        let b0 = if b < i { b } else { b + 1 };
        assert(less[a] == keys[a0] && less[b] == keys[b0]);
        assert(keys[a0]@ != keys[b0]@);
    }
    assert forall|k: Seq<u8>| key_set(less).contains(k) implies key_set(keys).remove(
        keys[i]@,
    ).contains(k) by {
        let a = choose|a: int| key_at(less, a, k);
        let a0 = if a < i { a } else { a + 1 };
        assert(less[a] == keys[a0]);
        assert(key_at(keys, a0, k));
        if a0 < i {
            assert(keys[a0]@ != keys[i]@);
        } else {
            assert(keys[i]@ != keys[a0]@);
        }
    }
    assert forall|k: Seq<u8>| key_set(keys).remove(keys[i]@).contains(k) implies key_set(
        less,
    ).contains(k) by {
        let a0 = choose|a0: int| key_at(keys, a0, k);
        let a = if a0 < i { a0 } else { a0 - 1 };
        assert(less[a] == keys[a0]);
        assert(key_at(less, a, k));
    }
}

impl View for Database {
    type V = Tables;

    closed spec fn view(&self) -> Tables {
        Tables { clips: table(self.clips@), api_keys: key_set(self.api_keys@) }
    }
}

impl Database {
    #[verifier::type_invariant]
    spec fn distinct(self) -> bool {
        rows_distinct(self.clips@) && keys_distinct(self.api_keys@)
    }

    /// Takes the rows out of the clip table, which is empty until they are
    /// put back.
    fn take_clips(&mut self) -> (rows: Vec<model::Clip>)
        ensures
            rows@ == old(self).clips@,
            rows_distinct(rows@),
            final(self).clips@.len() == 0,
            final(self).api_keys == old(self).api_keys,
    {
        proof {
            use_type_invariant(&*self);
        }
        let mut rows: Vec<model::Clip> = Vec::new();
        core::mem::swap(&mut self.clips, &mut rows);
        rows
    }

    /// Puts rows into the clip table in place of those it has.
    fn put_clips(&mut self, rows: Vec<model::Clip>)
        requires
            rows_distinct(rows@),
        ensures
            final(self).clips == rows,
            final(self).api_keys == old(self).api_keys,
    {
        proof {
            use_type_invariant(&*self);
        }
        self.clips = rows;
    }

    /// Takes the keys out of the key table, which is empty until they are
    /// put back.
    fn take_keys(&mut self) -> (keys: Vec<Vec<u8>>)
        ensures
            keys@ == old(self).api_keys@,
            keys_distinct(keys@),
            final(self).api_keys@.len() == 0,
            final(self).clips == old(self).clips,
    {
        proof {
            use_type_invariant(&*self);
        }
        let mut keys: Vec<Vec<u8>> = Vec::new();
        core::mem::swap(&mut self.api_keys, &mut keys);
        keys
    }

    /// Puts keys into the key table in place of those it has.
    fn put_keys(&mut self, keys: Vec<Vec<u8>>)
        requires
            keys_distinct(keys@),
        ensures
            final(self).api_keys == keys,
            final(self).clips == old(self).clips,
    {
        proof {
            use_type_invariant(&*self);
        }
        self.api_keys = keys;
    }

    /// Does nothing; tells the verifier that the tables are well formed.
    pub(crate) fn tables_are_well_formed(&self)
        ensures
            self@.wf(),
    {
        proof {
            use_type_invariant(self);
            lemma_table_wf(self.clips@, self.api_keys@);
        }
    }

    /// A database with empty tables.
    pub fn new() -> (r: Self)
        ensures
            r@ == Tables::empty(),
            r@.wf(),
    {
        let r = Database { clips: Vec::new(), api_keys: Vec::new() };
        assert(r@ =~= Tables::empty());
        r
    }
}

impl DatabaseFaultView {
    /// The failure in words.
    pub open spec fn message(self) -> Seq<char> {
        match self {
            DatabaseFaultView::RowNotFound => "no rows returned by a query that expected to return at least one row"@,
            DatabaseFaultView::UniqueViolation => "a unique value is already taken"@,
            DatabaseFaultView::OutOfRange => "a value is out of range"@,
            DatabaseFaultView::Other(text) => text,
        }
    }
}

impl DatabaseFault {
    /// The failure in words.
    pub fn message(&self) -> (r: String)
        ensures
            r@ == self@.message(),
    {
        match self {
            DatabaseFault::RowNotFound => "no rows returned by a query that expected to return at least one row".to_owned(),
            DatabaseFault::UniqueViolation => "a unique value is already taken".to_owned(),
            DatabaseFault::OutOfRange => "a value is out of range".to_owned(),
            DatabaseFault::Other(text) => text.clone(),
        }
    }
}

impl DataError {
    /// The error in words: that the database failed, then how.
    pub fn message(&self) -> (r: String)
        ensures
            r@ == "database error: "@ + self@.message(),
    {
        match self {
            DataError::DatabaseError(fault) => prefixed(
                "database error: ",
                fault.message().as_str(),
            ),
        }
    }
}

} // verus!
