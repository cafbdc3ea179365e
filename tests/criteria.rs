use boredapi::criteria::{
    activity_type, exact_accessibility, exact_price, key, max_accessibility, max_price,
    min_accessibility, min_price, participants,
};
use boredapi::text::{decimal_string, parse_u64, same_text, u64_text};
use boredapi::{criteria_for, random_criteria, ActivityType, CriteriaSelection, CriterionValue, Decimal};

fn pairs(s: &CriteriaSelection) -> Vec<(String, String)> {
    let mut v = s.parameters().clone();
    v.sort();
    v
}

fn pair(a: &str, b: &str) -> (String, String) {
    (a.to_string(), b.to_string())
}

const KINDS: [ActivityType; 9] = [
    ActivityType::Education,
    ActivityType::Recreational,
    ActivityType::Social,
    ActivityType::Diy,
    ActivityType::Charity,
    ActivityType::Cooking,
    ActivityType::Relaxation,
    ActivityType::Music,
    ActivityType::Busywork,
];

#[test]
fn kind_words_round_trip() {
    for kind in KINDS {
        assert_eq!(ActivityType::from_wire(kind.as_wire()), Some(kind));
        assert_eq!(ActivityType::from_wire(&kind.to_wire()), Some(kind));
    }
    assert_eq!(ActivityType::Diy.as_wire(), "diy");
    assert_eq!(ActivityType::Busywork.to_wire(), "busywork");
    assert_eq!(ActivityType::from_wire("skydiving"), None);
    assert_eq!(ActivityType::from_wire("Music"), None);
    assert_eq!(ActivityType::from_wire(""), None);
}

#[test]
fn empty_selection_has_no_parameters() {
    assert!(CriteriaSelection::new().parameters().is_empty());
    assert!(CriteriaSelection::default().parameters().is_empty());
}

#[test]
fn random_and_identity_make_the_same_query() {
    let identity = criteria_for(|s| s);
    let random = random_criteria();
    assert!(identity.parameters().is_empty());
    assert_eq!(pairs(&identity), pairs(&random));
}

#[test]
fn criteria_for_applies_the_transformation() {
    let s = criteria_for(|sel| sel.set(activity_type(), ActivityType::Busywork));
    assert_eq!(pairs(&s), vec![pair("type", "busywork")]);
}

#[test]
fn setting_twice_overwrites() {
    let s = CriteriaSelection::new()
        .set(participants(), 2)
        .set(participants(), 5);
    assert_eq!(pairs(&s), vec![pair("participants", "5")]);
    let s = CriteriaSelection::new()
        .set(activity_type(), ActivityType::Music)
        .set(key(), 3943506)
        .set(activity_type(), ActivityType::Cooking);
    assert_eq!(pairs(&s), vec![pair("key", "3943506"), pair("type", "cooking")]);
}

#[test]
fn every_criterion_uses_its_wire_name() {
    let d = Decimal::new(3, 1);
    let s = CriteriaSelection::new()
        .set(exact_accessibility(), d)
        .set(exact_price(), d)
        .set(max_accessibility(), d)
        .set(max_price(), d)
        .set(min_accessibility(), d)
        .set(min_price(), d)
        .set(key(), 1000000)
        .set(participants(), 0)
        .set(activity_type(), ActivityType::Charity);
    assert_eq!(
        pairs(&s),
        vec![
            pair("accessibility", "0.3"),
            pair("key", "1000000"),
            pair("maxaccessibility", "0.3"),
            pair("maxprice", "0.3"),
            pair("minaccessibility", "0.3"),
            pair("minprice", "0.3"),
            pair("participants", "0"),
            pair("price", "0.3"),
            pair("type", "charity"),
        ]
    );
}

#[test]
fn set_does_not_validate() {
    let s = CriteriaSelection::new().set(exact_accessibility(), Decimal::new(-1, 0));
    assert_eq!(pairs(&s), vec![pair("accessibility", "-1")]);
}

#[test]
fn decimal_wire_texts() {
    assert_eq!(Decimal::new(-1, 0).to_wire(), "-1");
    assert_eq!(Decimal::new(0, 0).to_wire(), "0");
    assert_eq!(Decimal::new(3, 1).to_wire(), "0.3");
    assert_eq!(Decimal::new(5, 3).to_wire(), "0.005");
    assert_eq!(Decimal::new(12345, 2).to_wire(), "123.45");
    assert_eq!(Decimal::new(-25, 2).to_wire(), "-0.25");
    assert_eq!(Decimal::new(30, 2).to_wire(), "0.30");
    assert_eq!(Decimal::new(i64::MIN, 0).to_wire(), "-9223372036854775808");
    assert_eq!(decimal_string(7, 1), "0.7");
}

#[test]
fn u64_wire_texts() {
    assert_eq!(0u64.to_wire(), "0");
    assert_eq!(3943506u64.to_wire(), "3943506");
    assert_eq!(u64_text(u64::MAX), "18446744073709551615");
}

#[test]
fn fraction_criteria_accept_the_unit_interval() {
    for c in [exact_accessibility(), exact_price(), max_accessibility(), max_price(), min_accessibility(), min_price()] {
        assert!(c.validate(&Decimal::new(0, 0)));
        assert!(c.validate(&Decimal::new(3, 1)));
        assert!(c.validate(&Decimal::new(999, 3)));
        assert!(c.validate(&Decimal::new(5, 30)));
        assert!(!c.validate(&Decimal::new(1, 0)));
        assert!(!c.validate(&Decimal::new(100, 2)));
        assert!(!c.validate(&Decimal::new(-1, 0)));
        assert!(!c.validate(&Decimal::new(-1, 30)));
    }
}

#[test]
fn key_criterion_range() {
    let k = key();
    assert!(k.validate(&1000000));
    assert!(k.validate(&9999998));
    assert!(!k.validate(&9999999));
    assert!(!k.validate(&999999));
}

#[test]
fn unbounded_criteria_accept_everything() {
    assert!(participants().validate(&0));
    assert!(participants().validate(&u64::MAX));
    for kind in KINDS {
        assert!(activity_type().validate(&kind));
    }
}

#[test]
fn unsigned_text_reading() {
    assert_eq!(parse_u64("0"), Some(0));
    assert_eq!(parse_u64("+7"), Some(7));
    assert_eq!(parse_u64("007"), Some(7));
    assert_eq!(parse_u64("18446744073709551615"), Some(u64::MAX));
    assert_eq!(parse_u64("18446744073709551616"), None);
    assert_eq!(parse_u64(""), None);
    assert_eq!(parse_u64("+"), None);
    assert_eq!(parse_u64("-0"), None);
    assert_eq!(parse_u64(" 1"), None);
}

#[test]
fn text_comparison() {
    assert!(same_text("abc", "abc"));
    assert!(!same_text("abc", "abd"));
    assert!(!same_text("abc", "ab"));
    assert!(same_text("", ""));
}

#[test]
fn clone_keeps_the_parameters() {
    let s = CriteriaSelection::new()
        .set(key(), 4000000)
        .set(activity_type(), ActivityType::Relaxation);
    let c = s.clone();
    assert_eq!(pairs(&c), pairs(&s));
    let c = c.set(key(), 5000000);
    assert_eq!(pairs(&c), vec![pair("key", "5000000"), pair("type", "relaxation")]);
    assert_eq!(pairs(&s), vec![pair("key", "4000000"), pair("type", "relaxation")]);
}
