use chrono::{TimeZone, Utc};
use clipstash::data::DatabaseId;
use clipstash::web::hit_counter::HitCounter;
use clipstash::web::ApiKey;
use clipstash::{ShortCode, Time};

#[test]
fn date_agrees_with_the_calendar() {
    for (date, y, m, d) in [
        ("2024-02-29", 2024, 2, 29),
        ("1999-12-31", 1999, 12, 31),
        ("2038-01-19", 2038, 1, 19),
        ("1900-03-01", 1900, 3, 1),
    ] {
        let expected = Utc.with_ymd_and_hms(y, m, d, 0, 0, 0).unwrap().timestamp();
        assert_eq!(Time::from_str(date).unwrap().to_timestamp(), expected);
    }
}

#[test]
fn clock_agrees_with_the_clock() {
    let before = Utc::now().timestamp();
    let now = Time::now().to_timestamp();
    let after = Utc::now().timestamp();
    assert!(before <= now && now <= after);
}

#[test]
fn identifier_agrees_with_its_bits() {
    let text = "67e55044-10b1-426f-9247-bb680e5fe0c8";
    let id = DatabaseId::from_str(text).unwrap();
    let bits = uuid::Uuid::parse_str(text).unwrap().as_u128();
    assert_eq!(bits, 0x67e5504410b1426f9247bb680e5fe0c8);
    assert_eq!(
        id.into_inner(),
        uuid::Uuid::from_u128(bits).to_hyphenated().to_string()
    );
    let urn = DatabaseId::from_str("urn:uuid:67e55044-10b1-426f-9247-bb680e5fe0c8").unwrap();
    assert!(urn == id);
}

#[test]
fn fresh_identifier_is_of_version_four() {
    for _ in 0..20 {
        let text = DatabaseId::new().into_inner();
        let id = uuid::Uuid::parse_str(text.as_str()).unwrap();
        assert_eq!(id.get_version_num(), 4);
        assert_eq!(id.as_u128() >> 62 & 3, 2);
    }
}

#[test]
fn transport_form_agrees_with_base64() {
    for bytes in [
        Vec::new(),
        vec![0u8],
        vec![0u8, 255],
        vec![1u8, 2, 3],
        (0u8..=255).collect::<Vec<u8>>(),
    ] {
        let text = base64::encode(&bytes);
        let key = ApiKey::from_str(text.as_str()).unwrap();
        assert_eq!(key.clone().into_inner(), bytes);
        assert!(key.is_encodable());
        assert_eq!(key.to_base64(), text);
    }
}

#[test]
fn hits_that_race_are_merged_the_same() {
    let code = |text: &str| ShortCode::from_str(text);
    let mut one = HitCounter::new();
    one.hit(code("a"), 3);
    one.hit(code("b"), 4);
    one.hit(code("a"), u32::MAX);
    let mut other = HitCounter::new();
    other.hit(code("a"), u32::MAX);
    other.hit(code("b"), 4);
    other.hit(code("a"), 3);
    let sorted = |counter: &mut HitCounter| {
        let mut entries: Vec<(String, u32)> = counter
            .drain()
            .into_iter()
            .map(|(code, count)| (code.into_inner(), count))
            .collect();
        entries.sort();
        entries
    };
    assert_eq!(sorted(&mut one), sorted(&mut other));
}
