use clipstash::domain::clip::field::ExpiresAt;
use clipstash::web::form::{GetPasswordProtectedClip, NewClip};
use clipstash::web::PageError;
use clipstash::ClipError;

#[test]
fn form_field_of_white_space_is_no_expiration() {
    assert_eq!(ExpiresAt::from_value("").unwrap().into_inner(), None);
    assert_eq!(ExpiresAt::from_value("   ").unwrap().into_inner(), None);
    assert_eq!(ExpiresAt::from_value("\t\n").unwrap().into_inner(), None);
}

#[test]
fn form_field_with_a_date_is_an_expiration() {
    let at = ExpiresAt::from_value("2021-01-01").unwrap();
    assert_eq!(at.into_inner().unwrap().to_timestamp(), 1_609_459_200);
    assert!(matches!(
        ExpiresAt::from_value("next week"),
        Err(ClipError::DateParseError(_))
    ));
}

#[test]
fn accepted_form_keeps_its_fields() {
    let form = NewClip::from_values("a title", "some content", "pw", "1970-01-02").unwrap();
    assert_eq!(form.title.clone().into_inner(), Some("a title".to_owned()));
    assert_eq!(form.content.as_str(), "some content");
    assert_eq!(form.password.clone().into_inner(), Some("pw".to_owned()));
    assert_eq!(form.expires_at.into_inner().unwrap().to_timestamp(), 86_400);
    let req = form.into_request();
    assert_eq!(req.content.as_str(), "some content");
    assert_eq!(req.title.into_inner(), Some("a title".to_owned()));
}

#[test]
fn form_with_empty_fields_is_a_plain_clip() {
    let form = NewClip::from_values("", "x", "", " ").unwrap();
    assert_eq!(form.title.clone().into_inner(), None);
    assert_eq!(form.password.clone().into_inner(), None);
    assert_eq!(form.expires_at.into_inner(), None);
}

#[test]
fn refused_form_names_each_field_at_fault() {
    let errors = NewClip::from_values("t", "", "", "").unwrap_err();
    assert_eq!(errors, vec!["empty content".to_owned()]);
    let errors = NewClip::from_values("t", "x", "", "never").unwrap_err();
    assert_eq!(errors.len(), 1);
    assert!(errors[0].starts_with("date parse error, "));
    let errors = NewClip::from_values("t", "", "", "never").unwrap_err();
    assert_eq!(errors.len(), 2);
    assert_eq!(errors[0], "empty content");
    assert!(errors[1].starts_with("date parse error, "));
}

#[test]
fn password_form_reads_its_field() {
    let form = GetPasswordProtectedClip::from_value("123");
    assert_eq!(form.password.into_inner(), Some("123".to_owned()));
    let form = GetPasswordProtectedClip::from_value("");
    assert!(!form.password.has_password());
}

#[test]
fn errors_of_the_engines_become_page_errors() {
    let e = serde_json::from_str::<serde_json::Value>("{").unwrap_err();
    let text = e.to_string();
    match PageError::from(e) {
        PageError::SerializationError(message) => assert_eq!(message, text),
        _ => panic!("another error came out"),
    }
    let engine = handlebars::Handlebars::new();
    let e = engine.render("missing", &0).unwrap_err();
    let text = e.to_string();
    let e = PageError::from(e);
    assert_eq!(e.status(), 500);
    match e {
        PageError::RenderError(message) => assert_eq!(message, text),
        _ => panic!("another error came out"),
    }
}

#[test]
fn parse_errors_speak_with_the_parsers_words() {
    let e = clipstash::data::DatabaseId::from_str("zz").unwrap_err();
    let text = e.to_string();
    assert_eq!(
        ClipError::InvalidId(e).message(),
        format!("id parse error, {}", text)
    );
    let e = u8::try_from(300i64).unwrap_err();
    let text = e.to_string();
    assert_eq!(
        ClipError::InvalidHits(e).message(),
        format!("hits parse error, {}", text)
    );
    let e = clipstash::Time::from_str("x").unwrap_err();
    let text = e.to_string();
    assert_eq!(
        ClipError::DateParseError(e).message(),
        format!("date parse error, {}", text)
    );
}
