//! The outside types and calls the library relies on, each with the
//! contract that the outside crate's source gives it.

use vstd::prelude::*;

verus! {

#[verifier::external_type_specification]
#[verifier::external_body]
pub struct ExValue(serde_json::Value);

#[verifier::external_type_specification]
#[verifier::external_body]
pub struct ExNumber(serde_json::Number);

#[verifier::external_type_specification]
#[verifier::external_body]
pub struct ExUrl(url::Url);

#[verifier::external_type_specification]
#[verifier::external_body]
pub struct ExParseError(url::ParseError);

/// The member of a JSON object under a key.
pub uninterp spec fn json_member(v: serde_json::Value, key: Seq<char>) -> Option<serde_json::Value>;

/// The text of a JSON string.
pub uninterp spec fn json_text(v: serde_json::Value) -> Option<Seq<char>>;

/// The number held by a JSON number.
pub uninterp spec fn json_number(v: serde_json::Value) -> Option<serde_json::Number>;

/// A JSON number that is a non-negative integer fitting in `u64`.
pub uninterp spec fn json_u64(v: serde_json::Value) -> Option<u64>;

/// The absolute URL that a text writes.
pub uninterp spec fn parsed_url(s: Seq<char>) -> Option<url::Url>;

/// Relies on `serde_json::Value::get` with a `&str` index: the member of an
/// object under `key`; `None` where the key is missing or `v` is no object.
#[verifier::external_body]
pub(crate) fn member<'a>(v: &'a serde_json::Value, key: &str) -> (r: Option<&'a serde_json::Value>)
    ensures
        match r {
            Some(m) => json_member(*v, key@) == Some(*m),
            None => json_member(*v, key@) is None,
        },
{
    v.get(key)
}

/// Relies on `serde_json::Value::as_str`: the text of a JSON string, `None`
/// for any other value.
#[verifier::external_body]
pub(crate) fn text(v: &serde_json::Value) -> (r: Option<&str>)
    ensures
        match r {
            Some(s) => json_text(*v) == Some(s@),
            None => json_text(*v) is None,
        },
{
    v.as_str()
}

/// Relies on `serde_json::Value::as_number`: the number of a JSON number,
/// `None` for any other value.
#[verifier::external_body]
pub(crate) fn number(v: &serde_json::Value) -> (r: Option<serde_json::Number>)
    ensures
        r == json_number(*v),
{
    v.as_number().cloned()
}

/// Relies on `serde_json::Value::as_u64`: the value of a JSON number that is
/// a non-negative integer in range, `None` for any other value.
#[verifier::external_body]
pub(crate) fn unsigned(v: &serde_json::Value) -> (r: Option<u64>)
    ensures
        r == json_u64(*v),
{
    v.as_u64()
}

/// Relies on `url::Url::parse`: the absolute URL that `s` writes, or the
/// parser's error where it writes none.
#[verifier::external_body]
pub(crate) fn parse_url(s: &str) -> (r: Result<url::Url, url::ParseError>)
    ensures
        match r {
            Ok(u) => parsed_url(s@) == Some(u),
            Err(_) => parsed_url(s@) is None,
        },
{
    url::Url::parse(s)
}

} // verus!
