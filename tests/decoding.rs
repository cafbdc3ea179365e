use boredapi::decode::assemble;
use boredapi::{deserialize, Activity, ActivityType, Error};

fn decode(text: &str) -> Result<Activity, Error> {
    let value: serde_json::Value = serde_json::from_str(text).unwrap();
    deserialize(&value)
}

fn is_bad(r: &Result<Activity, Error>) -> bool {
    matches!(r, Err(Error::BadResponse))
}

const FULL: &str = r#"{"activity":"Learn Rust","accessibility":0.3,"type":"education","participants":1,"price":0.0,"key":"3943506","link":""}"#;

#[test]
fn success_answer_decodes() {
    let a = decode(FULL).unwrap();
    assert_eq!(a.description, "Learn Rust");
    assert_eq!(a.accessibility.as_f64(), Some(0.3));
    assert_eq!(a.activity_type, ActivityType::Education);
    assert_eq!(a.participants, 1);
    assert_eq!(a.price.as_f64(), Some(0.0));
    assert!(a.link.is_none());
    assert_eq!(a.key, 3943506);
}

#[test]
fn service_error_carries_its_text() {
    let r = decode(r#"{"error":"No activity found with the specified parameters"}"#);
    match r {
        Err(Error::ApiError(m)) => assert_eq!(m, "No activity found with the specified parameters"),
        _ => panic!("expected the service's error"),
    }
}

#[test]
fn error_member_wins_over_fields() {
    let r = decode(r#"{"error":"busy","activity":"X","accessibility":0.3,"type":"education","participants":1,"price":0.0,"key":"1","link":""}"#);
    assert!(matches!(r, Err(Error::ApiError(m)) if m == "busy"));
}

#[test]
fn error_member_that_is_no_text_is_malformed() {
    assert!(is_bad(&decode(r#"{"error":5}"#)));
    assert!(is_bad(&decode(r#"{"error":null}"#)));
}

#[test]
fn unknown_type_word_is_malformed() {
    let r = decode(r#"{"activity":"X","accessibility":0.3,"type":"skydiving","participants":1,"price":0.0,"key":"1"}"#);
    assert!(is_bad(&r));
    let r = decode(r#"{"activity":"X","accessibility":0.3,"type":"Education","participants":1,"price":0.0,"key":"1","link":""}"#);
    assert!(is_bad(&r));
}

#[test]
fn non_object_answers_are_malformed() {
    assert!(is_bad(&decode(r#"[1, 2, 3]"#)));
    assert!(is_bad(&decode(r#""education""#)));
    assert!(is_bad(&decode(r#"42"#)));
    assert!(is_bad(&decode(r#"null"#)));
}

#[test]
fn each_missing_member_is_malformed() {
    let full: serde_json::Value = serde_json::from_str(FULL).unwrap();
    for key in ["activity", "accessibility", "type", "participants", "price", "key"] {
        let mut v = full.clone();
        v.as_object_mut().unwrap().remove(key);
        assert!(is_bad(&deserialize(&v)), "missing {}", key);
    }
}

#[test]
fn members_of_wrong_type_are_malformed() {
    let base: serde_json::Value = serde_json::from_str(FULL).unwrap();
    let cases: [(&str, serde_json::Value); 7] = [
        ("activity", serde_json::Value::from(3)),
        ("accessibility", serde_json::Value::from("0.3")),
        ("type", serde_json::Value::from(1)),
        ("participants", serde_json::Value::from(-1)),
        ("price", serde_json::Value::Null),
        ("link", serde_json::Value::Bool(false)),
        ("key", serde_json::Value::from(3943506)),
    ];
    for (key, bad) in cases {
        let mut v = base.clone();
        v.as_object_mut().unwrap().insert(key.to_string(), bad);
        assert!(is_bad(&deserialize(&v)), "wrong {}", key);
    }
}

#[test]
fn fractional_participants_are_malformed() {
    let r = decode(r#"{"activity":"X","accessibility":0.3,"type":"music","participants":1.5,"price":0.0,"key":"1","link":""}"#);
    assert!(is_bad(&r));
}

#[test]
fn integer_numbers_are_accepted_as_reals() {
    let a = decode(r#"{"activity":"X","accessibility":1,"type":"music","participants":2,"price":0,"key":"7","link":""}"#).unwrap();
    assert_eq!(a.accessibility.as_f64(), Some(1.0));
    assert_eq!(a.price.as_u64(), Some(0));
    assert_eq!(a.activity_type, ActivityType::Music);
    assert_eq!(a.participants, 2);
}

#[test]
fn link_is_parsed_as_url() {
    let a = decode(r#"{"activity":"X","accessibility":0.1,"type":"diy","participants":1,"price":0.5,"key":"5","link":"https://example.com/a?b=c"}"#).unwrap();
    assert_eq!(a.link.unwrap().as_str(), "https://example.com/a?b=c");
}

#[test]
fn malformed_link_is_rejected() {
    let r = decode(r#"{"activity":"X","accessibility":0.1,"type":"diy","participants":1,"price":0.5,"key":"5","link":"not a url"}"#);
    assert!(is_bad(&r));
}

#[test]
fn key_text_is_read_as_decimal() {
    let with_plus = decode(r#"{"activity":"X","accessibility":0.1,"type":"social","participants":1,"price":0.5,"key":"+42","link":""}"#).unwrap();
    assert_eq!(with_plus.key, 42);
    let largest = decode(r#"{"activity":"X","accessibility":0.1,"type":"social","participants":1,"price":0.5,"key":"18446744073709551615","link":""}"#).unwrap();
    assert_eq!(largest.key, u64::MAX);
    for bad in ["abc", "", "-1", "+", "18446744073709551616", "12a"] {
        let text = format!(r#"{{"activity":"X","accessibility":0.1,"type":"social","participants":1,"price":0.5,"key":"{}","link":""}}"#, bad);
        assert!(is_bad(&decode(&text)), "key {}", bad);
    }
}

#[test]
fn every_type_word_decodes() {
    let words = [
        ("education", ActivityType::Education),
        ("recreational", ActivityType::Recreational),
        ("social", ActivityType::Social),
        ("diy", ActivityType::Diy),
        ("charity", ActivityType::Charity),
        ("cooking", ActivityType::Cooking),
        ("relaxation", ActivityType::Relaxation),
        ("music", ActivityType::Music),
        ("busywork", ActivityType::Busywork),
    ];
    for (word, kind) in words {
        let text = format!(r#"{{"activity":"X","accessibility":0.1,"type":"{}","participants":1,"price":0.5,"key":"9","link":""}}"#, word);
        assert_eq!(decode(&text).unwrap().activity_type, kind);
    }
}

#[test]
fn missing_link_decodes_to_no_link() {
    let r = decode(r#"{"activity":"X","accessibility":0.3,"type":"cooking","participants":3,"price":0.1,"key":"1234567"}"#);
    let a = r.unwrap();
    assert!(a.link.is_none());
    assert_eq!(a.activity_type, ActivityType::Cooking);
    assert_eq!(a.key, 1234567);
}

#[test]
fn accessibility_range_is_not_enforced_on_read() {
    let a = decode(r#"{"activity":"X","accessibility":1.5,"type":"charity","participants":1,"price":2.5,"key":"8","link":""}"#).unwrap();
    assert_eq!(a.accessibility.as_f64(), Some(1.5));
    assert_eq!(a.price.as_f64(), Some(2.5));
}

fn num(n: u64) -> Option<serde_json::Number> {
    Some(serde_json::Number::from(n))
}

#[test]
fn assemble_builds_from_members() {
    let a = assemble(Some("Learn Rust"), num(0), Some("education"), Some(1), num(0), Some(None), Some("3943506")).unwrap();
    assert_eq!(a.description, "Learn Rust");
    assert_eq!(a.activity_type, ActivityType::Education);
    assert_eq!(a.key, 3943506);
    assert!(a.link.is_none());
    let url = url::Url::parse("https://example.com/").unwrap();
    let b = assemble(Some("Y"), num(1), Some("music"), Some(4), num(0), Some(Some(url.clone())), Some("12")).unwrap();
    assert_eq!(b.link, Some(url));
    assert_eq!(b.participants, 4);
}

#[test]
fn assemble_rejects_bad_members() {
    let bad = |r: Result<Activity, Error>| matches!(r, Err(Error::BadResponse));
    assert!(bad(assemble(None, num(0), Some("diy"), Some(1), num(0), Some(None), Some("1"))));
    assert!(bad(assemble(Some("X"), None, Some("diy"), Some(1), num(0), Some(None), Some("1"))));
    assert!(bad(assemble(Some("X"), num(0), Some("skydiving"), Some(1), num(0), Some(None), Some("1"))));
    assert!(bad(assemble(Some("X"), num(0), None, Some(1), num(0), Some(None), Some("1"))));
    assert!(bad(assemble(Some("X"), num(0), Some("diy"), None, num(0), Some(None), Some("1"))));
    assert!(bad(assemble(Some("X"), num(0), Some("diy"), Some(1), None, Some(None), Some("1"))));
    assert!(bad(assemble(Some("X"), num(0), Some("diy"), Some(1), num(0), None, Some("1"))));
    assert!(bad(assemble(Some("X"), num(0), Some("diy"), Some(1), num(0), Some(None), Some("x1"))));
    assert!(bad(assemble(Some("X"), num(0), Some("diy"), Some(1), num(0), Some(None), None)));
}
