//! The JSON body of a request, as far as the fleet reads it.

use vstd::prelude::*;

verus! {

/// A parsed JSON document of `serde_json`. Nothing inside it is visible
/// here; it is read through [`text_member`] alone.
#[verifier::external_type_specification]
#[verifier::external_body]
pub struct ExJsonValue(serde_json::Value);

/// The members of a JSON object whose values are strings, by their keys. A
/// document that is not an object has none.
pub uninterp spec fn text_members(payload: serde_json::Value) -> Map<Seq<char>, Seq<char>>;

/// Looks up `key` with `serde_json::Value::get` and reads what is found with
/// `serde_json::Value::as_str`.
///
/// Claimed: a text comes back exactly when the document is an object that
/// holds a string under `key`, and it is that string. A document that is no
/// object, a missing key and a value of another kind all give nothing.
#[verifier::external_body]
pub(crate) fn text_member(payload: &serde_json::Value, key: &str) -> (text: Option<String>)
    ensures
        match text {
            Some(found) => text_members(*payload).contains_key(key@) && text_members(
                *payload,
            )[key@] == found@,
            None => !text_members(*payload).contains_key(key@),
        },
{
    payload.get(key).and_then(serde_json::Value::as_str).map(str::to_owned)
}

} // verus!
