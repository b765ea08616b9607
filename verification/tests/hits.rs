use clipstash::data::query::test_helpers::{model_get_clip, model_new_clip};
use clipstash::data::query::{get_clip, increment_hit, new_clip};
use clipstash::data::Database;
use clipstash::web::hit_counter::{HitCountMsg, HitCounter, MOST_WAITING};
use clipstash::ShortCode;

fn code(text: &str) -> ShortCode {
    ShortCode::from_str(text)
}

fn stored_hits(db: &Database, shortcode: &str) -> i64 {
    get_clip(model_get_clip(shortcode), db).unwrap().hits
}

fn sorted(mut entries: Vec<(ShortCode, u32)>) -> Vec<(String, u32)> {
    let mut out: Vec<(String, u32)> = entries
        .drain(..)
        .map(|(code, count)| (code.into_inner(), count))
        .collect();
    out.sort();
    out
}

#[test]
fn new_counter_has_nothing_pending() {
    let mut hits = HitCounter::new();
    assert!(hits.drain().is_empty());
}

#[test]
fn hits_for_one_code_are_merged() {
    let mut hits = HitCounter::new();
    hits.hit(code("a"), 1);
    hits.hit(code("b"), 5);
    hits.hit(code("a"), 2);
    hits.hit(code("c"), 0);
    hits.hit(code("a"), 1);
    assert_eq!(
        sorted(hits.drain()),
        vec![
            ("a".to_owned(), 4),
            ("b".to_owned(), 5),
            ("c".to_owned(), 0)
        ]
    );
    assert!(hits.drain().is_empty());
}

#[test]
fn waiting_hits_stop_at_the_most() {
    let mut hits = HitCounter::new();
    hits.hit(code("a"), MOST_WAITING - 1);
    hits.hit(code("a"), 1);
    assert_eq!(sorted(hits.drain()), vec![("a".to_owned(), u32::MAX)]);
    hits.hit(code("a"), MOST_WAITING);
    hits.hit(code("a"), 7);
    assert_eq!(sorted(hits.drain()), vec![("a".to_owned(), u32::MAX)]);
}

#[test]
fn flush_writes_every_hit_once() {
    let mut db = Database::new();
    new_clip(model_new_clip("a"), &mut db).unwrap();
    new_clip(model_new_clip("b"), &mut db).unwrap();
    increment_hit(&code("a"), 10, &mut db).unwrap();
    let mut hits = HitCounter::new();
    let n = 250;
    for _ in 0..n {
        hits.hit(code("a"), 1);
    }
    assert_eq!(stored_hits(&db, "a"), 10);
    hits.commit_hits(&mut db);
    assert_eq!(stored_hits(&db, "a"), 10 + n);
    assert_eq!(stored_hits(&db, "b"), 0);
    hits.commit_hits(&mut db);
    assert_eq!(stored_hits(&db, "a"), 10 + n);
    assert!(hits.drain().is_empty());
}

#[test]
fn flush_drops_hits_for_clips_that_are_gone() {
    let mut db = Database::new();
    new_clip(model_new_clip("kept"), &mut db).unwrap();
    let mut hits = HitCounter::new();
    hits.hit(code("gone"), 3);
    hits.hit(code("kept"), 2);
    hits.hit(code("also gone"), 1);
    hits.commit_hits(&mut db);
    assert_eq!(stored_hits(&db, "kept"), 2);
    assert!(get_clip(model_get_clip("gone"), &db).is_err());
    assert!(hits.drain().is_empty());
}

#[test]
fn flush_goes_on_after_an_increment_that_fails() {
    let mut db = Database::new();
    new_clip(model_new_clip("full"), &mut db).unwrap();
    new_clip(model_new_clip("a"), &mut db).unwrap();
    increment_hit(&code("full"), i64::MAX, &mut db).unwrap();
    let mut hits = HitCounter::new();
    hits.hit(code("full"), 1);
    hits.hit(code("a"), 4);
    hits.commit_hits(&mut db);
    assert_eq!(stored_hits(&db, "full"), i64::MAX);
    assert_eq!(stored_hits(&db, "a"), 4);
}

#[test]
fn counter_does_what_it_is_told() {
    let mut db = Database::new();
    new_clip(model_new_clip("a"), &mut db).unwrap();
    let mut hits = HitCounter::new();
    hits.process_msg(HitCountMsg::Hit(code("a"), 2), &mut db);
    hits.process_msg(HitCountMsg::Hit(code("a"), 3), &mut db);
    assert_eq!(stored_hits(&db, "a"), 0);
    hits.process_msg(HitCountMsg::Commit, &mut db);
    assert_eq!(stored_hits(&db, "a"), 5);
    hits.process_msg(HitCountMsg::Commit, &mut db);
    assert_eq!(stored_hits(&db, "a"), 5);
}
