//! JSON values as the service sends them. A value is opaque to the proofs:
//! it is carried through, and the few questions the SDK asks of one go
//! through the trusted items below.

use vstd::prelude::*;

verus! {

/// A JSON value of `serde_json`, carried through unchanged.
#[verifier::external_type_specification]
#[verifier::external_body]
pub struct ExJsonValue(serde_json::Value);

/// Calls `Clone::clone` on a JSON value: the copy is the same value.
#[verifier::external_body]
pub(crate) fn json_clone(v: &serde_json::Value) -> (r: serde_json::Value)
    ensures
        r == *v,
{
    v.clone()
}

/// Whether `serde_json::Value::as_array` finds an array in `v`.
pub uninterp spec fn json_is_array(v: serde_json::Value) -> bool;

/// What `serde_json::Value::get` finds under the key `key` of `v`.
pub uninterp spec fn json_get(v: serde_json::Value, key: Seq<char>) -> Option<serde_json::Value>;

/// Calls `serde_json::Value::as_array`. It returns the array when `v` is one,
/// and nothing otherwise; the array, wrapped back into a JSON value, is a
/// copy of `v` itself.
#[verifier::external_body]
pub(crate) fn json_as_array(v: &serde_json::Value) -> (r: Option<serde_json::Value>)
    ensures
        r is Some <==> json_is_array(*v),
        r matches Some(a) ==> a == *v,
{
    match v.as_array() {
        Some(items) => Some(serde_json::Value::Array(items.clone())),
        None => None,
    }
}

/// Calls `serde_json::Value::get` with a string key and copies what it finds.
/// A string key finds a member only in an object, so an array finds nothing;
/// which member an object holds is left to the name `json_get`.
#[verifier::external_body]
pub(crate) fn json_member(v: &serde_json::Value, key: &str) -> (r: Option<serde_json::Value>)
    ensures
        r == json_get(*v, key@),
        json_is_array(*v) ==> r is None,
{
    match v.get(key) {
        Some(found) => Some(found.clone()),
        None => None,
    }
}

} // verus!
