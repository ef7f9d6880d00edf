//! JSON text, read and written by `serde_json`.
//!
//! The library never looks inside a JSON value. It needs two things of the
//! JSON crate: whether a text is JSON, with the text the crate writes for it,
//! and the text of a small object of strings. Both are functions of their
//! arguments alone and are known here by name only.

use vstd::prelude::*;

verus! {

/// The compact text that `serde_json` writes for the value it reads from
/// `text`, or `None` where it reads no value from it.
pub uninterp spec fn json_normal_form(text: Seq<char>) -> Option<Seq<char>>;

/// The compact text that `serde_json` writes for the object built by
/// inserting the member `first_key: first_value` and then the member
/// `second_key: second_value`, both values being strings.
pub uninterp spec fn json_object_text(
    first_key: Seq<char>,
    first_value: Seq<char>,
    second_key: Seq<char>,
    second_value: Seq<char>,
) -> Seq<char>;

/// Reads `text` with `serde_json::from_str` as a `serde_json::Value` and
/// writes the value back with the `Display` of `Value` (its `to_string`).
/// The contract only gives the outcome its name: `None` stands for a text
/// that `from_str` rejects.
#[verifier::external_body]
pub(crate) fn normalize_json(text: &str) -> (normal: Option<String>)
    ensures
        match normal {
            Some(written) => json_normal_form(text@) == Some(written@),
            None => json_normal_form(text@).is_none(),
        },
{
    match serde_json::from_str::<serde_json::Value>(text) {
        Ok(value) => Some(value.to_string()),
        Err(_) => None,
    }
}

/// Builds a `serde_json::Map` by two calls of `insert`, each with a
/// `Value::String`, and writes the `Value::Object` of it with `to_string`.
/// The contract only gives the text its name.
#[verifier::external_body]
pub(crate) fn object_text(
    first_key: &str,
    first_value: &str,
    second_key: &str,
    second_value: &str,
) -> (text: String)
    ensures
        text@ == json_object_text(first_key@, first_value@, second_key@, second_value@),
{
    let mut object = serde_json::Map::new();
    object.insert(first_key.to_string(), serde_json::Value::String(first_value.to_string()));
    object.insert(second_key.to_string(), serde_json::Value::String(second_value.to_string()));
    serde_json::Value::Object(object).to_string()
}

} // verus!
