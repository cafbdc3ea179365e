//! Decoding the service's JSON answer into an activity or a classified
//! failure.

use vstd::prelude::*;
use vstd::string::*;
use crate::model::{Activity, ActivityType, ActivityView, Error};
use crate::outside::{
    json_member, json_number, json_text, json_u64, member, number, parse_url, parsed_url, text,
    unsigned,
};
use crate::text::{parse_u64, parsed_u64};

verus! {

/// How decoding refuses an answer.
pub enum Rejection {
    /// The answer carries the service's error message.
    Service(Seq<char>),
    /// The answer does not have the expected shape.
    Malformed,
}

pub open spec fn text_member(json: serde_json::Value, key: Seq<char>) -> Option<Seq<char>> {
    match json_member(json, key) {
        Some(m) => json_text(m),
        None => None,
    }
}

pub open spec fn number_member(json: serde_json::Value, key: Seq<char>) -> Option<serde_json::Number> {
    match json_member(json, key) {
        Some(m) => json_number(m),
        None => None,
    }
}

pub open spec fn u64_member(json: serde_json::Value, key: Seq<char>) -> Option<u64> {
    match json_member(json, key) {
        Some(m) => json_u64(m),
        None => None,
    }
}

/// The link that a link text stands for: none for the empty text, else the
/// URL it writes; `None` where it writes no URL.
pub open spec fn link_of(s: Seq<char>) -> Option<Option<url::Url>> {
    if s.len() == 0 {
        Some(None)
    } else {
        match parsed_url(s) {
            Some(u) => Some(Some(u)),
            None => None,
        }
    }
}

/// The link an answer gives: none where the `link` member is missing,
/// else what its text stands for; `None` where the member is no text or
/// writes no URL.
pub open spec fn link_member(json: serde_json::Value) -> Option<Option<url::Url>> {
    match json_member(json, "link"@) {
        None => Some(None),
        Some(m) => match json_text(m) {
            Some(t) => link_of(t),
            None => None,
        },
    }
}

/// The view of an optional text.
pub open spec fn text_view(t: Option<&str>) -> Option<Seq<char>> {
    match t {
        Some(s) => Some(s@),
        None => None,
    }
}

/// What an activity's members, as read from an answer, make: each required
/// member must be there (`Some`), the type word must name a kind, the link
/// must be readable and the key must be a decimal `u64`.
pub open spec fn assembled(
    description: Option<Seq<char>>,
    accessibility: Option<serde_json::Number>,
    kind: Option<Seq<char>>,
    participants: Option<u64>,
    price: Option<serde_json::Number>,
    link: Option<Option<url::Url>>,
    key: Option<Seq<char>>,
) -> Result<ActivityView, Rejection> {
    if description is Some && accessibility is Some && kind is Some && ActivityType::named(
        kind.unwrap(),
    ) is Some && participants is Some && price is Some && link is Some && key is Some
        && parsed_u64(key.unwrap()) is Some {
        Ok(
            ActivityView {
                description: description.unwrap(),
                accessibility: accessibility.unwrap(),
                activity_type: ActivityType::named(kind.unwrap()).unwrap(),
                participants: participants.unwrap(),
                price: price.unwrap(),
                link: link.unwrap(),
                key: parsed_u64(key.unwrap()).unwrap(),
            },
        )
    } else {
        Err(Rejection::Malformed)
    }
}

/// What an answer decodes to. An `error` member makes it a rejection, by
/// the service where the member is text; otherwise each required member
/// must be there with the right JSON type, the type word must name a kind,
/// the link must be missing, empty or a URL, and the key must be a decimal
/// `u64`.
pub open spec fn decoded(json: serde_json::Value) -> Result<ActivityView, Rejection> {
    match json_member(json, "error"@) {
        Some(e) => match json_text(e) {
            Some(t) => Err(Rejection::Service(t)),
            None => Err(Rejection::Malformed),
        },
        None => assembled(
            text_member(json, "activity"@),
            number_member(json, "accessibility"@),
            text_member(json, "type"@),
            u64_member(json, "participants"@),
            number_member(json, "price"@),
            link_member(json),
            text_member(json, "key"@),
        ),
    }
}

/// Whether a decoding outcome is the one that `expected` describes.
pub open spec fn outcome_is(r: Result<Activity, Error>, expected: Result<ActivityView, Rejection>) -> bool {
    match (r, expected) {
        (Ok(a), Ok(v)) => a@ == v,
        (Err(Error::ApiError(t)), Err(Rejection::Service(m))) => t@ == m,
        (Err(Error::BadResponse), Err(Rejection::Malformed)) => true,
        _ => false,
    }
}

/// The members that a success answer must hold.
pub open spec fn is_required_member(key: Seq<char>) -> bool {
    key == "activity"@ || key == "accessibility"@ || key == "type"@ || key == "participants"@
        || key == "price"@ || key == "key"@
}

/// An answer of the success shape: no `error` member, each required member
/// present, of its JSON type, and readable, and the link missing, empty or a
/// URL.
pub open spec fn success_shaped(json: serde_json::Value) -> bool {
    &&& json_member(json, "error"@) is None
    &&& text_member(json, "activity"@) is Some
    &&& number_member(json, "accessibility"@) is Some
    &&& text_member(json, "type"@) is Some
    &&& ActivityType::named(text_member(json, "type"@).unwrap()) is Some
    &&& u64_member(json, "participants"@) is Some
    &&& number_member(json, "price"@) is Some
    &&& link_member(json) is Some
    &&& text_member(json, "key"@) is Some
    &&& parsed_u64(text_member(json, "key"@).unwrap()) is Some
}

/// An answer of the success shape always decodes to an activity, whose
/// fields are the answer's members.
pub proof fn lemma_success_shape_decodes(json: serde_json::Value)
    requires
        success_shaped(json),
    ensures
        decoded(json) is Ok,
        decoded(json)->Ok_0.description == text_member(json, "activity"@).unwrap(),
        decoded(json)->Ok_0.participants == u64_member(json, "participants"@).unwrap(),
        decoded(json)->Ok_0.key == parsed_u64(text_member(json, "key"@).unwrap()).unwrap(),
{
}

/// An answer of the success shape without a `link` member decodes to an
/// activity with no link; one whose `link` member is no text is malformed.
pub proof fn lemma_link_member(json: serde_json::Value)
    ensures
        success_shaped(json) && json_member(json, "link"@) is None ==> decoded(json) is Ok
            && decoded(json)->Ok_0.link is None,
        json_member(json, "error"@) is None && json_member(json, "link"@) is Some && json_text(
            json_member(json, "link"@).unwrap(),
        ) is None ==> decoded(json) == Err::<ActivityView, Rejection>(Rejection::Malformed),
{
}

/// An answer without an `error` member that lacks a required member is
/// malformed: no activity comes of it.
pub proof fn lemma_missing_member_rejected(json: serde_json::Value, key: Seq<char>)
    requires
        json_member(json, "error"@) is None,
        is_required_member(key),
        json_member(json, key) is None,
    ensures
        decoded(json) == Err::<ActivityView, Rejection>(Rejection::Malformed),
{
}

fn text_field<'a>(json: &'a serde_json::Value, key: &str) -> (r: Option<&'a str>)
    ensures
        match r {
            Some(s) => text_member(*json, key@) == Some(s@),
            None => text_member(*json, key@) is None,
        },
{
    match member(json, key) {
        Some(m) => text(m),
        None => None,
    }
}

fn number_field(json: &serde_json::Value, key: &str) -> (r: Option<serde_json::Number>)
    ensures
        r == number_member(*json, key@),
{
    match member(json, key) {
        Some(m) => number(m),
        None => None,
    }
}

fn u64_field(json: &serde_json::Value, key: &str) -> (r: Option<u64>)
    ensures
        r == u64_member(*json, key@),
{
    match member(json, key) {
        Some(m) => unsigned(m),
        None => None,
    }
}

fn link_text(s: &str) -> (r: Option<Option<url::Url>>)
    ensures
        r == link_of(s@),
{
    if s.unicode_len() == 0 {
        Some(None)
    } else {
        match parse_url(s) {
            Ok(u) => Some(Some(u)),
            Err(_) => None,
        }
    }
}

fn link_field(json: &serde_json::Value) -> (r: Option<Option<url::Url>>)
    ensures
        r == link_member(*json),
{
    match member(json, "link") {
        None => Some(None),
        Some(m) => match text(m) {
            Some(s) => link_text(s),
            None => None,
        },
    }
}

/// Builds an activity from its members as read from an answer: `None` for
/// a member that is missing or of the wrong JSON type, and for `link` the
/// link it gives (`Some(None)` for no link). The checks run in a fixed
/// order and the first that fails ends with `BadResponse`; no partial
/// activity is ever built.
pub fn assemble(
    description: Option<&str>,
    accessibility: Option<serde_json::Number>,
    kind: Option<&str>,
    participants: Option<u64>,
    price: Option<serde_json::Number>,
    link: Option<Option<url::Url>>,
    key: Option<&str>,
) -> (r: Result<Activity, Error>)
    ensures
        outcome_is(
            r,
            assembled(
                text_view(description),
                accessibility,
                text_view(kind),
                participants,
                price,
                link,
                text_view(key),
            ),
        ),
{
    let description = match description {
        Some(s) => String::from_str(s),
        None => return Err(Error::BadResponse),
    };
    let accessibility = match accessibility {
        Some(n) => n,
        None => return Err(Error::BadResponse),
    };
    let activity_type = match kind {
        Some(s) => match ActivityType::from_wire(s) {
            Some(t) => t,
            None => return Err(Error::BadResponse),
        },
        None => return Err(Error::BadResponse),
    };
    let participants = match participants {
        Some(p) => p,
        None => return Err(Error::BadResponse),
    };
    let price = match price {
        Some(n) => n,
        None => return Err(Error::BadResponse),
    };
    let link = match link {
        Some(l) => l,
        None => return Err(Error::BadResponse),
    };
    let key = match key {
        Some(s) => match parse_u64(s) {
            Some(k) => k,
            None => return Err(Error::BadResponse),
        },
        None => return Err(Error::BadResponse),
    };
    Ok(Activity::new(description, accessibility, activity_type, participants, price, link, key))
}

/// Decodes the service's answer: an `error` member ends it at once;
/// otherwise the members are read and handed to `assemble`.
pub fn deserialize(json: &serde_json::Value) -> (r: Result<Activity, Error>)
    ensures
        outcome_is(r, decoded(*json)),
{
    if let Some(err) = member(json, "error") {
        return match text(err) {
            Some(s) => Err(Error::ApiError(String::from_str(s))),
            None => Err(Error::BadResponse),
        };
    }
    assemble(
        text_field(json, "activity"),
        number_field(json, "accessibility"),
        text_field(json, "type"),
        u64_field(json, "participants"),
        number_field(json, "price"),
        link_field(json),
        text_field(json, "key"),
    )
}

} // verus!
