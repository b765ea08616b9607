use clipstash::client::{
    clip_address, clips_address, get_request, new_request, password_cookie, update_password,
    update_request, DEFAULT_ADDR,
};
use clipstash::data::Database;
use clipstash::domain::clip::field::{Content, ExpiresAt, Password, ShortCode, Title};
use clipstash::domain::time::Time;
use clipstash::service::action;
use clipstash::service::ask::{NewClip, UpdateClip};
use clipstash::web::api::{
    check_api_key, get_clip, judge_api_key, new_clip, read_api_key, update_clip, ApiError,
    ApiKeyError,
};
use clipstash::web::http::Status;
use clipstash::web::{ApiKey, HitCounter};
use clipstash::{ClipError, ServiceError};

fn request(content: &str, password: &str) -> NewClip {
    NewClip {
        title: Title::default(),
        content: Content::new(content).unwrap(),
        password: Password::new(password.to_owned()).unwrap(),
        expires_at: ExpiresAt::default(),
    }
}

fn with_key(db: &mut Database) -> String {
    action::generate_api_key(db).unwrap().to_base64()
}

#[test]
fn request_without_a_key_in_force_is_rejected() {
    let mut db = Database::new();
    let header = with_key(&mut db);
    assert!(check_api_key(Some(header.as_str()), &db).is_ok());
    assert!(matches!(
        check_api_key(None, &db),
        Err(ApiError::KeyError(ApiKeyError::NotFound(_)))
    ));
    assert!(matches!(
        check_api_key(Some("not base64!"), &db),
        Err(ApiError::KeyError(ApiKeyError::DecodeError(_)))
    ));
    let stranger = ApiKey::default().to_base64();
    assert!(matches!(
        check_api_key(Some(stranger.as_str()), &db),
        Err(ApiError::KeyError(ApiKeyError::NotFound(_)))
    ));
    let key = ApiKey::from_str(header.as_str()).unwrap();
    action::revoke_api_key(key, &mut db).unwrap();
    assert!(matches!(
        check_api_key(Some(header.as_str()), &db),
        Err(ApiError::KeyError(ApiKeyError::NotFound(_)))
    ));
}

#[test]
fn key_is_read_from_the_header() {
    assert!(matches!(read_api_key(None), Err(ApiKeyError::NotFound(_))));
    assert_eq!(
        read_api_key(Some("AAEC")).unwrap().into_inner(),
        vec![0u8, 1, 2]
    );
    assert!(matches!(
        read_api_key(Some("?")),
        Err(ApiKeyError::DecodeError(_))
    ));
}

#[test]
fn key_is_judged_by_what_the_service_says() {
    let key = ApiKey::default();
    assert!(judge_api_key(key.clone(), Ok(true)).is_ok());
    match judge_api_key(key.clone(), Ok(false)) {
        Err(e) => {
            assert_eq!(e.status(), Status::BadRequest);
            assert!(matches!(e, ApiError::KeyError(ApiKeyError::NotFound(_))));
        }
        Ok(_) => panic!("the key was let through"),
    }
    match judge_api_key(key, Err(ServiceError::NotFound)) {
        Err(ApiError::Server(text)) => assert_eq!(text, "server error"),
        _ => panic!("the failure was not the server's"),
    }
}

#[test]
fn clips_are_served_to_callers_with_a_key() {
    let mut db = Database::new();
    let mut hits = HitCounter::new();
    let header = with_key(&mut db);
    let header = Some(header.as_str());
    let clip = new_clip(header, request("content", "123"), &mut db).unwrap();
    let code = clip.shortcode.as_str();
    assert!(matches!(
        get_clip(header, code, None, &db, &mut hits),
        Err(ApiError::User(_))
    ));
    match get_clip(header, code, Some("abc"), &db, &mut hits) {
        Err(e) => {
            assert_eq!(e.status().code(), 400);
            assert!(matches!(e, ApiError::User(text) if text == "invalid password"));
        }
        Ok(_) => panic!("the clip was served"),
    }
    assert!(hits.drain().is_empty());
    let got = get_clip(header, code, Some("123"), &db, &mut hits).unwrap();
    assert_eq!(got.content.as_str(), "content");
    assert_eq!(hits.drain().len(), 1);
    match get_clip(header, "nope", Some("123"), &db, &mut hits) {
        Err(ApiError::NotFound(text)) => assert_eq!(text, "entity not found"),
        _ => panic!("something was found"),
    }
    assert!(matches!(
        get_clip(None, code, Some("123"), &db, &mut hits),
        Err(ApiError::KeyError(_))
    ));
    assert!(hits.drain().is_empty());
}

#[test]
fn clips_are_changed_for_callers_with_a_key_only() {
    let mut db = Database::new();
    let header = with_key(&mut db);
    let header = Some(header.as_str());
    assert!(matches!(
        new_clip(None, request("content", ""), &mut db),
        Err(ApiError::KeyError(_))
    ));
    let clip = new_clip(header, request("content", ""), &mut db).unwrap();
    let fields = || UpdateClip {
        title: Title::from_str("t"),
        content: Content::new("changed").unwrap(),
        password: Password::default(),
        expires_at: ExpiresAt::default(),
        shortcode: clip.shortcode.clone(),
    };
    assert!(matches!(
        update_clip(Some("AAAA"), fields(), &mut db),
        Err(ApiError::KeyError(_))
    ));
    let mut hits = HitCounter::new();
    let kept = get_clip(header, clip.shortcode.as_str(), None, &db, &mut hits).unwrap();
    assert_eq!(kept.content.as_str(), "content");
    let updated = update_clip(header, fields(), &mut db).unwrap();
    assert_eq!(updated.content.as_str(), "changed");
    assert!(updated.id == clip.id);
    let mut missing = fields();
    missing.shortcode = ShortCode::from_str("nope");
    let e = update_clip(header, missing, &mut db).unwrap_err();
    assert_eq!(e.status(), Status::NotFound);
}

#[test]
fn failures_of_the_service_are_sorted_for_the_caller() {
    let e = ApiError::from(ServiceError::Clip(ClipError::EmptyContent));
    assert!(matches!(&e, ApiError::User(text) if text == "clip parsing error: empty content"));
    assert_eq!(e.status().code(), 400);
    let e = ApiError::from(ServiceError::NotFound);
    assert_eq!(e.status().code(), 404);
    let e = ApiError::from(ServiceError::Data(clipstash::DataError::DatabaseError(
        clipstash::data::DatabaseFault::UniqueViolation,
    )));
    assert!(matches!(&e, ApiError::Server(text) if text == "a server error occurred"));
    assert_eq!(e.status().code(), 500);
    let e = ApiError::from(ServiceError::PermissionError("no".to_owned()));
    assert!(matches!(&e, ApiError::User(text) if text == "no"));
}

#[test]
fn client_knows_where_to_send_requests() {
    assert_eq!(DEFAULT_ADDR, "http://127.0.0.1:8000");
    assert_eq!(
        clip_address(DEFAULT_ADDR, &ShortCode::from_str("abc")),
        "http://127.0.0.1:8000/api/clip/abc"
    );
    assert_eq!(clips_address("http://host"), "http://host/api/clip");
    assert_eq!(
        password_cookie(&Password::new("123".to_owned()).unwrap()),
        Some("password=123".to_owned())
    );
    assert_eq!(password_cookie(&Password::default()), None);
}

#[test]
fn client_builds_the_requests_of_its_commands() {
    let req = get_request(ShortCode::from_str("abc"), None).unwrap();
    assert_eq!(req.shortcode.as_str(), "abc");
    assert!(!req.password.has_password());
    let req = get_request(ShortCode::from_str("abc"), Some(String::new())).unwrap();
    assert!(!req.password.has_password());
    let req = get_request(ShortCode::from_str("abc"), Some("pw".to_owned())).unwrap();
    assert_eq!(req.password.into_inner(), Some("pw".to_owned()));

    let req = new_request(None, "content".to_owned(), None, None).unwrap();
    assert_eq!(req.title.into_inner(), None);
    assert_eq!(req.content.as_str(), "content");
    assert_eq!(req.password.into_inner(), None);
    assert_eq!(req.expires_at.into_inner(), None);
    let req = new_request(
        Some(Title::from_str("t")),
        "content".to_owned(),
        Some(Password::from_str("pw").unwrap()),
        Some(ExpiresAt::from_str("1970-01-02").unwrap()),
    )
    .unwrap();
    assert_eq!(req.title.into_inner(), Some("t".to_owned()));
    assert_eq!(req.password.into_inner(), Some("pw".to_owned()));
    assert_eq!(req.expires_at.into_inner().unwrap().to_timestamp(), 86_400);
    assert!(matches!(
        new_request(None, String::new(), None, None),
        Err(ClipError::EmptyContent)
    ));
}

#[test]
fn client_update_keeps_what_is_not_given() {
    let mut db = Database::new();
    let current = action::new_clip(
        NewClip {
            title: Title::from_str("old title"),
            content: Content::new("old").unwrap(),
            password: Password::from_str("pw").unwrap(),
            expires_at: ExpiresAt::new(Some(Time::from_naive_utc(50))),
        },
        &mut db,
    )
    .unwrap();
    let password = update_password(None);
    assert!(!password.has_password());
    let req = update_request(
        current.clone(),
        None,
        "new".to_owned(),
        password,
        None,
        current.shortcode.clone(),
    )
    .unwrap();
    assert_eq!(req.title.clone().into_inner(), Some("old title".to_owned()));
    assert_eq!(req.expires_at.into_inner().unwrap().to_timestamp(), 50);
    assert_eq!(req.content.as_str(), "new");
    assert_eq!(req.password.clone().into_inner(), None);
    assert_eq!(req.shortcode.as_str(), current.shortcode.as_str());

    let req = update_request(
        current.clone(),
        Some(Title::default()),
        "new".to_owned(),
        update_password(Some(Password::from_str("other").unwrap())),
        Some(ExpiresAt::default()),
        current.shortcode.clone(),
    )
    .unwrap();
    assert_eq!(req.title.clone().into_inner(), None);
    assert_eq!(req.expires_at.into_inner(), None);
    assert_eq!(req.password.clone().into_inner(), Some("other".to_owned()));
    assert!(matches!(
        update_request(
            current.clone(),
            None,
            String::new(),
            Password::default(),
            None,
            current.shortcode.clone()
        ),
        Err(ClipError::EmptyContent)
    ));
}
