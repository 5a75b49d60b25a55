//! The few operations on JSON text that the wire messages need. All of them
//! are calls into `serde_json`: what each one returns is given a name here
//! and is not defined by this crate.

use vstd::prelude::*;

verus! {

#[verifier::external_type_specification]
#[verifier::external_body]
pub struct ExJsonValue(serde_json::Value);

/// The document that `serde_json` reads from `text`, or `None` where it
/// reports an error.
pub uninterp spec fn json_document(text: Seq<char>) -> Option<serde_json::Value>;

/// The member `key` of `value`, or `None` where `value` is not an object or
/// has no such member.
pub uninterp spec fn json_member(value: serde_json::Value, key: Seq<char>) -> Option<
    serde_json::Value,
>;

/// The text of `value`, or `None` where `value` is not a JSON string.
pub uninterp spec fn json_string(value: serde_json::Value) -> Option<Seq<char>>;

/// The number `value` as an unsigned 64-bit integer, or `None` where
/// `value` is not a number or is a number that is not one.
pub uninterp spec fn json_u64(value: serde_json::Value) -> Option<u64>;

/// The JSON string literal for `text`: quoted and escaped. `None` where the
/// encoder reports an error.
pub uninterp spec fn json_quoted(text: Seq<char>) -> Option<Seq<char>>;

/// `serde_json::from_str` at the type `serde_json::Value`. Trusted: the
/// result is a function of the text alone; a parse error becomes `None`.
#[verifier::external_body]
pub(crate) fn parse_document(text: &str) -> (r: Option<serde_json::Value>)
    ensures
        r == json_document(text@),
{
    serde_json::from_str::<serde_json::Value>(text).ok()
}

/// `serde_json::Value::get` with a string key. Trusted: the result is a
/// function of the value and the key alone.
#[verifier::external_body]
pub(crate) fn member<'a>(value: &'a serde_json::Value, key: &str) -> (r: Option<
    &'a serde_json::Value,
>)
    ensures
        match r {
            Some(m) => json_member(*value, key@) == Some(*m),
            None => json_member(*value, key@) is None,
        },
{
    value.get(key)
}

/// `serde_json::Value::as_str`. Trusted: the result is a function of the
/// value alone.
#[verifier::external_body]
pub(crate) fn as_string(value: &serde_json::Value) -> (r: Option<&str>)
    ensures
        match r {
            Some(s) => json_string(*value) == Some(s@),
            None => json_string(*value) is None,
        },
{
    value.as_str()
}

/// `serde_json::Value::as_u64`. Trusted: the result is a function of the
/// value alone.
#[verifier::external_body]
pub(crate) fn as_u64(value: &serde_json::Value) -> (r: Option<u64>)
    ensures
        r == json_u64(*value),
{
    value.as_u64()
}

/// `serde_json::to_string` on a string slice. Trusted: the result is a
/// function of the text alone; an encoder error becomes `None`.
#[verifier::external_body]
pub(crate) fn quote(text: &str) -> (r: Option<String>)
    ensures
        match r {
            Some(q) => json_quoted(text@) == Some(q@),
            None => json_quoted(text@) is None,
        },
{
    serde_json::to_string(text).ok()
}

} // verus!
