use clipstash::web::api::{ApiKey, ApiKeyError, API_KEY_HEADER, KEY_LENGTH};

#[test]
fn generated_key_has_sixteen_bytes() {
    assert_eq!(KEY_LENGTH, 16);
    assert_eq!(ApiKey::default().into_inner().len(), 16);
}

#[test]
fn generated_keys_differ() {
    assert_ne!(ApiKey::default().into_inner(), ApiKey::default().into_inner());
}

#[test]
fn key_is_carried_in_base64() {
    let key = ApiKey::from_str("aGVsbG8gd29ybGQ=").unwrap();
    assert_eq!(key.clone().into_inner(), b"hello world".to_vec());
    assert_eq!(key.to_base64(), "aGVsbG8gd29ybGQ=");
}

#[test]
fn key_survives_its_transport_form() {
    let key = ApiKey::default();
    let text = key.to_base64();
    assert_eq!(text.len(), 24);
    let again = ApiKey::from_str(text.as_str()).unwrap();
    assert_eq!(again.into_inner(), key.into_inner());
}

#[test]
fn empty_text_is_the_empty_key() {
    let key = ApiKey::from_str("").unwrap();
    assert_eq!(key.to_base64(), "");
    assert_eq!(key.into_inner(), Vec::<u8>::new());
}

#[test]
fn text_that_is_no_base64_is_refused() {
    assert!(matches!(
        ApiKey::from_str("not base64!"),
        Err(ApiKeyError::DecodeError(_))
    ));
    assert!(matches!(
        ApiKey::from_str("a"),
        Err(ApiKeyError::DecodeError(_))
    ));
    assert!(matches!(
        ApiKey::from_str("aGVsbG8=d29ybGQ="),
        Err(ApiKeyError::DecodeError(_))
    ));
    let e = ApiKey::from_str("*").unwrap_err();
    assert_eq!(e.message(), "invalid API key format");
    assert_eq!(
        ApiKeyError::NotFound("x".to_owned()).message(),
        "API key not found"
    );
}

#[test]
fn key_header_is_named() {
    assert_eq!(API_KEY_HEADER, "x-api-key");
}
