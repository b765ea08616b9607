use clipstash::data::model;
use clipstash::data::query::test_helpers::{model_get_clip, model_new_clip};
use clipstash::data::query::{
    api_key_is_valid, delete_expired, get_clip, increment_hit, new_clip, revoke_api_key,
    save_api_key, update_clip, RevocationStatus,
};
use clipstash::data::{DataError, Database, DatabaseFault};
use clipstash::web::ApiKey;
use clipstash::ShortCode;

fn new_db() -> Database {
    Database::new()
}

fn row(shortcode: &str, expires_at: Option<i64>) -> model::NewClip {
    let mut m = model_new_clip(shortcode);
    m.expires_at = expires_at;
    m
}

#[test]
fn test_db() {
    let mut db = new_db();

    let clip = new_clip(model_new_clip("1"), &mut db);
    assert!(clip.is_ok());
    let clip = clip.unwrap();
    assert!(clip.content == format!("content for clip '1'"));
}

#[test]
fn sample_row_is_plain() {
    let m = model_new_clip("abc");
    assert_eq!(m.shortcode, "abc");
    assert_eq!(m.content, "content for clip 'abc'");
    assert_eq!(m.title, None);
    assert_eq!(m.password, None);
    assert_eq!(m.expires_at, None);
    assert_eq!(m.id.len(), 36);
    assert!(m.created_at > 1_577_836_800);
    assert_eq!(model_get_clip("abc").shortcode, "abc");
}

#[test]
fn inserted_row_is_fetched_with_no_hits() {
    let mut db = new_db();
    let m = model_new_clip("1");
    let id = m.id.clone();
    let created_at = m.created_at;
    let stored = new_clip(m, &mut db).unwrap();
    assert_eq!(stored.hits, 0);
    assert_eq!(stored.id, id);
    let fetched = get_clip(model_get_clip("1"), &db).unwrap();
    assert_eq!(fetched.id, id);
    assert_eq!(fetched.shortcode, "1");
    assert_eq!(fetched.content, "content for clip '1'");
    assert_eq!(fetched.created_at, created_at);
    assert_eq!(fetched.hits, 0);
}

#[test]
fn missing_row_is_not_found() {
    let mut db = new_db();
    assert!(matches!(
        get_clip(model_get_clip("1"), &db),
        Err(DataError::DatabaseError(DatabaseFault::RowNotFound))
    ));
    new_clip(model_new_clip("1"), &mut db).unwrap();
    assert!(matches!(
        get_clip(model_get_clip("2"), &db),
        Err(DataError::DatabaseError(DatabaseFault::RowNotFound))
    ));
    assert!(matches!(
        get_clip(model_get_clip(""), &db),
        Err(DataError::DatabaseError(DatabaseFault::RowNotFound))
    ));
}

#[test]
fn taken_code_is_a_conflict() {
    let mut db = new_db();
    new_clip(model_new_clip("1"), &mut db).unwrap();
    let mut second = model_new_clip("1");
    second.content = "other".to_owned();
    assert!(matches!(
        new_clip(second, &mut db),
        Err(DataError::DatabaseError(DatabaseFault::UniqueViolation))
    ));
    let kept = get_clip(model_get_clip("1"), &db).unwrap();
    assert_eq!(kept.content, "content for clip '1'");
}

#[test]
fn taken_identifier_is_a_conflict() {
    let mut db = new_db();
    let first = model_new_clip("1");
    let id = first.id.clone();
    new_clip(first, &mut db).unwrap();
    let mut second = model_new_clip("2");
    second.id = id;
    assert!(matches!(
        new_clip(second, &mut db),
        Err(DataError::DatabaseError(DatabaseFault::UniqueViolation))
    ));
    assert!(get_clip(model_get_clip("2"), &db).is_err());
}

#[test]
fn update_overwrites_fields_and_keeps_identity() {
    let mut db = new_db();
    let stored = new_clip(model_new_clip("1"), &mut db).unwrap();
    new_clip(model_new_clip("2"), &mut db).unwrap();
    increment_hit(&ShortCode::from_str("1"), 3, &mut db).unwrap();
    let m = model::UpdateClip {
        title: Some("t".to_owned()),
        content: "new".to_owned(),
        password: Some("pw".to_owned()),
        shortcode: "1".to_owned(),
        expires_at: Some(99),
    };
    let updated = update_clip(m, &mut db).unwrap();
    assert_eq!(updated.id, stored.id);
    assert_eq!(updated.shortcode, "1");
    assert_eq!(updated.created_at, stored.created_at);
    assert_eq!(updated.hits, 3);
    assert_eq!(updated.title, Some("t".to_owned()));
    assert_eq!(updated.content, "new");
    assert_eq!(updated.password, Some("pw".to_owned()));
    assert_eq!(updated.expires_at, Some(99));
    let fetched = get_clip(model_get_clip("1"), &db).unwrap();
    assert_eq!(fetched.content, "new");
    let other = get_clip(model_get_clip("2"), &db).unwrap();
    assert_eq!(other.content, "content for clip '2'");
}

#[test]
fn update_of_a_missing_row_is_not_found() {
    let mut db = new_db();
    new_clip(model_new_clip("1"), &mut db).unwrap();
    let m = model::UpdateClip {
        title: None,
        content: "new".to_owned(),
        password: None,
        shortcode: "2".to_owned(),
        expires_at: None,
    };
    assert!(matches!(
        update_clip(m, &mut db),
        Err(DataError::DatabaseError(DatabaseFault::RowNotFound))
    ));
    assert_eq!(
        get_clip(model_get_clip("1"), &db).unwrap().content,
        "content for clip '1'"
    );
}

#[test]
fn hits_add_up() {
    let mut db = new_db();
    new_clip(model_new_clip("1"), &mut db).unwrap();
    new_clip(model_new_clip("2"), &mut db).unwrap();
    increment_hit(&ShortCode::from_str("1"), 1, &mut db).unwrap();
    increment_hit(&ShortCode::from_str("1"), 41, &mut db).unwrap();
    increment_hit(&ShortCode::from_str("1"), 0, &mut db).unwrap();
    assert_eq!(get_clip(model_get_clip("1"), &db).unwrap().hits, 42);
    assert_eq!(get_clip(model_get_clip("2"), &db).unwrap().hits, 0);
}

#[test]
fn hits_for_a_missing_row_are_not_found() {
    let mut db = new_db();
    assert!(matches!(
        increment_hit(&ShortCode::from_str("1"), 1, &mut db),
        Err(DataError::DatabaseError(DatabaseFault::RowNotFound))
    ));
}

#[test]
fn hits_never_go_down_or_out_of_range() {
    let mut db = new_db();
    new_clip(model_new_clip("1"), &mut db).unwrap();
    increment_hit(&ShortCode::from_str("1"), 5, &mut db).unwrap();
    assert!(matches!(
        increment_hit(&ShortCode::from_str("1"), -1, &mut db),
        Err(DataError::DatabaseError(DatabaseFault::OutOfRange))
    ));
    assert!(matches!(
        increment_hit(&ShortCode::from_str("1"), i64::MAX - 4, &mut db),
        Err(DataError::DatabaseError(DatabaseFault::OutOfRange))
    ));
    assert_eq!(get_clip(model_get_clip("1"), &db).unwrap().hits, 5);
    increment_hit(&ShortCode::from_str("1"), i64::MAX - 5, &mut db).unwrap();
    assert_eq!(get_clip(model_get_clip("1"), &db).unwrap().hits, i64::MAX);
}

#[test]
fn sweep_deletes_what_expired_before_now() {
    let mut db = new_db();
    new_clip(row("past", Some(99)), &mut db).unwrap();
    new_clip(row("now", Some(100)), &mut db).unwrap();
    new_clip(row("future", Some(101)), &mut db).unwrap();
    new_clip(row("never", None), &mut db).unwrap();
    new_clip(row("long ago", Some(-5)), &mut db).unwrap();
    assert_eq!(delete_expired(100, &mut db).unwrap(), 2);
    assert!(get_clip(model_get_clip("past"), &db).is_err());
    assert!(get_clip(model_get_clip("long ago"), &db).is_err());
    assert!(get_clip(model_get_clip("now"), &db).is_ok());
    assert!(get_clip(model_get_clip("future"), &db).is_ok());
    assert!(get_clip(model_get_clip("never"), &db).is_ok());
    assert_eq!(delete_expired(100, &mut db).unwrap(), 0);
    assert_eq!(delete_expired(101, &mut db).unwrap(), 1);
    assert_eq!(delete_expired(i64::MAX, &mut db).unwrap(), 1);
    assert_eq!(delete_expired(i64::MAX, &mut db).unwrap(), 0);
    assert!(get_clip(model_get_clip("never"), &db).is_ok());
    assert!(get_clip(model_get_clip("future"), &db).is_err());
}

#[test]
fn sweep_of_empty_tables_deletes_nothing() {
    let mut db = new_db();
    assert_eq!(delete_expired(0, &mut db).unwrap(), 0);
}

#[test]
fn api_key_lives_from_save_to_revocation() {
    let mut db = new_db();
    let key = ApiKey::default();
    assert!(!api_key_is_valid(key.clone(), &db).unwrap());
    assert!(matches!(
        revoke_api_key(key.clone(), &mut db).unwrap(),
        RevocationStatus::NotFound
    ));
    let saved = save_api_key(key.clone(), &mut db).unwrap();
    assert_eq!(saved.into_inner(), key.clone().into_inner());
    assert!(api_key_is_valid(key.clone(), &db).unwrap());
    assert!(matches!(
        revoke_api_key(key.clone(), &mut db).unwrap(),
        RevocationStatus::Revoked
    ));
    assert!(!api_key_is_valid(key.clone(), &db).unwrap());
    assert!(matches!(
        revoke_api_key(key.clone(), &mut db).unwrap(),
        RevocationStatus::NotFound
    ));
}

#[test]
fn api_key_is_saved_once() {
    let mut db = new_db();
    let key = ApiKey::default();
    save_api_key(key.clone(), &mut db).unwrap();
    assert!(matches!(
        save_api_key(key.clone(), &mut db),
        Err(DataError::DatabaseError(DatabaseFault::UniqueViolation))
    ));
    assert!(api_key_is_valid(key, &db).unwrap());
}

#[test]
fn api_keys_do_not_stand_for_each_other() {
    let mut db = new_db();
    let a = ApiKey::from_str("AAAA").unwrap();
    let b = ApiKey::from_str("AAAB").unwrap();
    save_api_key(a.clone(), &mut db).unwrap();
    assert!(!api_key_is_valid(b.clone(), &db).unwrap());
    save_api_key(b.clone(), &mut db).unwrap();
    revoke_api_key(a.clone(), &mut db).unwrap();
    assert!(api_key_is_valid(b, &db).unwrap());
    assert!(!api_key_is_valid(a, &db).unwrap());
}

#[test]
fn data_errors_speak() {
    assert_eq!(
        DataError::DatabaseError(DatabaseFault::Other("disk full".to_owned())).message(),
        "database error: disk full"
    );
    assert_eq!(
        DatabaseFault::RowNotFound.message(),
        "no rows returned by a query that expected to return at least one row"
    );
    assert_eq!(
        DatabaseFault::UniqueViolation.message(),
        "a unique value is already taken"
    );
    assert_eq!(DatabaseFault::OutOfRange.message(), "a value is out of range");
}
