//! JSON values, carried through the library as opaque metadata.
use vstd::prelude::*;

verus! {

#[verifier::external_type_specification]
#[verifier::external_body]
pub struct ExJsonValue(serde_json::Value);

/// A copy of a JSON value (`serde_json::Value::clone`, which copies the
/// whole tree, so the copy is the same value).
#[verifier::external_body]
pub(crate) fn json_clone(v: &serde_json::Value) -> (r: serde_json::Value)
    ensures
        r == *v,
{
    v.clone()
}

/// What `serde_json::Value::from_iter` builds from the single pair
/// `(key, value)`: the object whose one member `key` is the string `value`.
pub uninterp spec fn json_object_of(key: Seq<char>, value: Seq<char>) -> serde_json::Value;

/// The JSON object with the single member `key: value`, a string
/// (`serde_json::Value::from_iter` over one pair).
#[verifier::external_body]
pub(crate) fn json_single_member(key: &str, value: &str) -> (r: serde_json::Value)
    ensures
        r == json_object_of(key@, value@),
{
    serde_json::Value::from_iter([(key.to_string(), value.to_string())])
}

} // verus!
