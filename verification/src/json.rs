//! What the crate reads out of a job's JSON parameters.
use vstd::prelude::*;
use vstd::string::*;

verus! {

/// A JSON value.
#[verifier::external_type_specification]
#[verifier::external_body]
pub struct ExValue(serde_json::Value);

/// The derived `Clone` of `serde_json::Value` copies every variant and every
/// member: the copy is the same JSON value.
pub assume_specification[ <serde_json::Value as Clone>::clone ](
    v: &serde_json::Value,
) -> (r: serde_json::Value)
    ensures
        r == *v,
;

/// The members of a JSON object whose values are strings. A value that is not
/// an object has none.
pub uninterp spec fn text_members(v: serde_json::Value) -> Map<Seq<char>, Seq<char>>;

/// The members of a JSON object whose values are integers from 0 to 2^64 - 1. A
/// value that is not an object has none.
pub uninterp spec fn unsigned_members(v: serde_json::Value) -> Map<Seq<char>, u64>;

/// The string that `v` holds under `key`, if any.
pub open spec fn text_at(v: serde_json::Value, key: Seq<char>) -> Option<Seq<char>> {
    if text_members(v).dom().contains(key) {
        Some(text_members(v)[key])
    } else {
        None
    }
}

/// The unsigned integer that `v` holds under `key`, if any.
pub open spec fn unsigned_at(v: serde_json::Value, key: Seq<char>) -> Option<u64> {
    if unsigned_members(v).dom().contains(key) {
        Some(unsigned_members(v)[key])
    } else {
        None
    }
}

/// `serde_json::Value::get` with a string key, then `serde_json::Value::as_str`:
/// the string under `key`, when `v` is an object that has one there.
#[verifier::external_body]
pub(crate) fn text_member<'a>(v: &'a serde_json::Value, key: &str) -> (r: Option<&'a str>)
    ensures
        match r {
            Some(s) => text_members(*v).dom().contains(key@) && s@ == text_members(*v)[key@],
            None => !text_members(*v).dom().contains(key@),
        },
{
    v.get(key)?.as_str()
}

/// `serde_json::Value::get` with a string key, then `serde_json::Value::as_u64`:
/// the integer under `key`, when `v` is an object that has one there which is
/// neither negative nor larger than a `u64` holds.
#[verifier::external_body]
pub(crate) fn unsigned_member(v: &serde_json::Value, key: &str) -> (r: Option<u64>)
    ensures
        match r {
            Some(n) => unsigned_members(*v).dom().contains(key@) && n == unsigned_members(
                *v,
            )[key@],
            None => !unsigned_members(*v).dom().contains(key@),
        },
{
    v.get(key)?.as_u64()
}

} // verus!
