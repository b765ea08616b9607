use clipstash::data::Database;
use clipstash::domain::clip::field::{Content, ExpiresAt, Password, ShortCode, Title};
use clipstash::service;
use clipstash::web::ctx::{
    ApiKey, ApiKeyGenerate, ClipRequirePassword, ClipView, Home, PageContext,
};
use clipstash::web::form;
use clipstash::web::http::{
    api_key, cookie_password, form_error, generate_api_key, get_clip, get_raw_clip, home,
    new_clip, refuse_form, show_clip, submit_clip_password, Page, Raw, Status,
};
use clipstash::web::{HitCounter, PageError, PASSWORD_COOKIE};
use clipstash::ServiceError;

fn raw_status(r: &Result<Raw, Status>) -> Status {
    match r {
        Ok(Raw::Content(_)) => Status::Success,
        Ok(Raw::Page(answer)) => answer.status,
        Err(status) => *status,
    }
}

#[test]
fn gets_home() {
    let response = home();
    assert_eq!(response.status, Status::Success);
    assert_eq!(response.status.code(), 200);
    assert!(matches!(response.page, Page::Home(_)));
    assert!(response.errors.is_empty());
}

#[test]
fn error_on_missing_clip() {
    let db = Database::new();
    let mut hits = HitCounter::new();
    let response = get_clip(ShortCode::from_str("notexist"), &db, &mut hits);
    match response {
        Err(e) => {
            assert!(matches!(e, PageError::NotFound(_)));
            assert_eq!(e.status(), 404);
            assert_eq!(e.message(), "clip not found");
        }
        Ok(_) => panic!("a clip was served"),
    }
    assert!(hits.drain().is_empty());
}

#[test]
fn requires_password_when_applicable() {
    let mut db = Database::new();
    let mut hits = HitCounter::new();

    let req = service::ask::NewClip {
        title: Title::default(),
        content: Content::new("content").unwrap(),
        expires_at: ExpiresAt::default(),
        password: Password::new("123".to_owned()).unwrap(),
    };
    let clip = service::action::new_clip(req, &mut db).unwrap();

    // Block clip when no password is provided
    let response = get_clip(clip.shortcode.clone(), &db, &mut hits).unwrap();
    assert_eq!(response.status, Status::Unauthorized);
    let response = get_raw_clip(None, clip.shortcode.clone(), &db, &mut hits);
    assert_eq!(raw_status(&response), Status::Unauthorized);

    // Get clip when the password is provided
    let response = submit_clip_password(
        Some(form::GetPasswordProtectedClip {
            password: Password::new("123".to_owned()).unwrap(),
        }),
        clip.shortcode.clone(),
        &db,
    )
    .unwrap();
    assert_eq!(response.status, Status::Success);
    // Get clip when the password is provided
    let response = get_raw_clip(Some("123"), clip.shortcode.clone(), &db, &mut hits);
    assert_eq!(raw_status(&response), Status::Success);

    // Get clip when the password is provided, but incorrect
    let response = get_raw_clip(Some("abc"), clip.shortcode.clone(), &db, &mut hits);
    assert_eq!(raw_status(&response), Status::Unauthorized);
}

#[test]
fn served_page_counts_one_hit() {
    let mut db = Database::new();
    let mut hits = HitCounter::new();
    let req = service::ask::NewClip {
        title: Title::default(),
        content: Content::new("content").unwrap(),
        expires_at: ExpiresAt::default(),
        password: Password::default(),
    };
    let clip = service::action::new_clip(req, &mut db).unwrap();
    let response = get_clip(clip.shortcode.clone(), &db, &mut hits).unwrap();
    assert_eq!(response.status.code(), 200);
    match response.page {
        Page::Clip(view) => assert_eq!(view.clip.content.as_str(), "content"),
        _ => panic!("another page was served"),
    }
    match get_raw_clip(None, clip.shortcode.clone(), &db, &mut hits) {
        Ok(Raw::Content(text)) => assert_eq!(text, "content"),
        _ => panic!("the text was not served"),
    }
    assert!(matches!(
        get_raw_clip(None, ShortCode::from_str("nope"), &db, &mut hits),
        Err(Status::NotFound)
    ));
    let pending = hits.drain();
    assert_eq!(pending.len(), 1);
    assert_eq!(pending[0].0.as_str(), clip.shortcode.as_str());
    assert_eq!(pending[0].1, 2);
}

#[test]
fn denied_page_counts_no_hit_and_asks_for_the_password() {
    let mut db = Database::new();
    let mut hits = HitCounter::new();
    let req = service::ask::NewClip {
        title: Title::default(),
        content: Content::new("content").unwrap(),
        expires_at: ExpiresAt::default(),
        password: Password::new("123".to_owned()).unwrap(),
    };
    let clip = service::action::new_clip(req, &mut db).unwrap();
    let response = get_clip(clip.shortcode.clone(), &db, &mut hits).unwrap();
    assert_eq!(response.status.code(), 401);
    match response.page {
        Page::RequirePassword(context) => {
            assert_eq!(context.code().as_str(), clip.shortcode.as_str())
        }
        _ => panic!("another page was served"),
    }
    assert!(hits.drain().is_empty());
}

#[test]
fn submitted_password_is_kept_in_a_cookie() {
    let mut db = Database::new();
    let req = service::ask::NewClip {
        title: Title::default(),
        content: Content::new("content").unwrap(),
        expires_at: ExpiresAt::default(),
        password: Password::new("123".to_owned()).unwrap(),
    };
    let clip = service::action::new_clip(req, &mut db).unwrap();
    let submit = |password: &str| {
        submit_clip_password(
            Some(form::GetPasswordProtectedClip {
                password: Password::new(password.to_owned()).unwrap(),
            }),
            clip.shortcode.clone(),
            &db,
        )
    };
    let response = submit("123").unwrap();
    assert_eq!(
        response.cookie,
        Some(("password".to_owned(), "123".to_owned()))
    );
    assert!(matches!(response.page, Page::Clip(_)));
    let response = submit("wrong").unwrap();
    assert_eq!(response.status, Status::Success);
    assert_eq!(response.cookie, None);
    assert_eq!(response.errors, vec!["incorrect password".to_owned()]);
    assert!(matches!(response.page, Page::RequirePassword(_)));
    let response = submit_clip_password(None, clip.shortcode.clone(), &db).unwrap();
    assert!(matches!(response.page, Page::RequirePassword(_)));
    assert!(response.errors.is_empty());
    let missing = submit_clip_password(
        Some(form::GetPasswordProtectedClip {
            password: Password::default(),
        }),
        ShortCode::from_str("nope"),
        &db,
    );
    assert!(matches!(missing, Err(PageError::NotFound(_))));
}

#[test]
fn cookie_carries_the_password() {
    assert_eq!(PASSWORD_COOKIE, "password");
    assert_eq!(cookie_password(None).into_inner(), None);
    assert_eq!(cookie_password(Some("")).into_inner(), None);
    assert_eq!(cookie_password(Some("abc")).into_inner(), Some("abc".to_owned()));
}

#[test]
fn submitted_clip_sends_the_visitor_on() {
    let mut db = Database::new();
    let form = form::NewClip {
        title: Title::from_str("t"),
        content: Content::new("content").unwrap(),
        password: Password::default(),
        expires_at: ExpiresAt::default(),
    };
    let code = match new_clip(Ok(form), &mut db) {
        Ok(code) => code,
        Err(_) => panic!("the clip was not created"),
    };
    let mut hits = HitCounter::new();
    let response = get_clip(code, &db, &mut hits).unwrap();
    match response.page {
        Page::Clip(view) => {
            assert_eq!(view.clip.title.clone().into_inner(), Some("t".to_owned()))
        }
        _ => panic!("another page was served"),
    }
}

#[test]
fn refused_form_is_shown_again_with_its_errors() {
    let mut db = Database::new();
    let errors = vec![
        form_error(Some("empty content".to_owned())),
        form_error(None),
    ];
    let response = match new_clip(Err(errors), &mut db) {
        Err(answer) => answer,
        Ok(_) => panic!("a clip was created"),
    };
    assert_eq!(response.status.code(), 400);
    assert!(matches!(response.page, Page::Home(_)));
    assert_eq!(
        response.errors,
        vec![
            "empty content".to_owned(),
            "An error occurred, please try again".to_owned()
        ]
    );
    assert_eq!(refuse_form(Vec::new()).status, Status::BadRequest);
}

#[test]
fn failure_of_the_service_is_an_internal_error() {
    let failure = ServiceError::Clip(clipstash::ClipError::EmptyContent);
    match show_clip(ShortCode::from_str("x"), Err(failure)) {
        Err(e) => {
            assert!(matches!(e, PageError::InternalError(_)));
            assert_eq!(e.status(), 500);
            assert_eq!(e.message(), "service error: empty content");
        }
        Ok(_) => panic!("a page was served"),
    }
}

#[test]
fn generated_key_is_shown_in_base64() {
    let mut db = Database::new();
    assert_eq!(api_key().status, Status::Success);
    assert!(matches!(api_key().page, Page::ApiKeyGenerate(_)));
    let response = generate_api_key(&mut db).unwrap();
    assert_eq!(response.status, Status::Success);
    let (name, value) = response.data.unwrap();
    assert_eq!(name, "api_key");
    assert_eq!(value.len(), 24);
    let key = clipstash::web::ApiKey::from_str(value.as_str()).unwrap();
    assert!(service::action::api_key_is_valid(key, &db).unwrap());
}

#[test]
fn statuses_have_their_numbers() {
    assert_eq!(Status::Success.code(), 200);
    assert_eq!(Status::BadRequest.code(), 400);
    assert_eq!(Status::Unauthorized.code(), 401);
    assert_eq!(Status::NotFound.code(), 404);
    assert_eq!(Status::InternalServerError.code(), 500);
    assert_eq!(PageError::NotFound(String::new()).status(), 404);
    assert_eq!(PageError::RenderError(String::new()).status(), 500);
    assert_eq!(PageError::SerializationError(String::new()).status(), 500);
    assert_eq!(PageError::InternalError("x".to_owned()).message(), "x");
}

#[test]
fn pages_name_their_templates() {
    let home = Home::default();
    assert_eq!(
        (home.title(), home.template_path(), home.parent()),
        ("Stash your clipboard", "home", "base")
    );
    let ask = ClipRequirePassword::new(ShortCode::from_str("x"));
    assert_eq!(
        (ask.title(), ask.template_path(), ask.parent()),
        ("Password required", "clip_need_password", "base")
    );
    let generate = ApiKeyGenerate::default();
    assert_eq!(
        (generate.title(), generate.template_path(), generate.parent()),
        ("Generate Api Key", "generate_api_key", "base")
    );
    let key = ApiKey::default();
    assert_eq!(
        (key.title(), key.template_path(), key.parent()),
        ("Api Key", "api_key", "base")
    );
    let mut db = Database::new();
    let req = service::ask::NewClip {
        title: Title::default(),
        content: Content::new("content").unwrap(),
        expires_at: ExpiresAt::default(),
        password: Password::default(),
    };
    let view = ClipView::new(service::action::new_clip(req, &mut db).unwrap());
    assert_eq!(
        (view.title(), view.template_path(), view.parent()),
        ("Clip", "clip", "base")
    );
}
