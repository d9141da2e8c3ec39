//! JSON texts, as far as the gateway looks into them.

use crate::text::opt_text;
use vstd::prelude::*;

verus! {

/// What the parser says against a text; nothing for a JSON text.
pub uninterp spec fn json_fault(text: Seq<char>) -> Option<Seq<char>>;

/// The compact form of a JSON text.
pub uninterp spec fn json_compact(text: Seq<char>) -> Seq<char>;

/// The string that a JSON object holds under a key.
pub uninterp spec fn json_string_at(text: Seq<char>, key: Seq<char>) -> Option<Seq<char>>;

/// The truth value that a JSON object holds under a key.
pub uninterp spec fn json_bool_at(text: Seq<char>, key: Seq<char>) -> Option<bool>;

/// Whether a JSON object has a key.
pub uninterp spec fn json_has_key(text: Seq<char>, key: Seq<char>) -> bool;

/// What a JSON object holds under a key, as Rust's `Debug` form shows it.
pub uninterp spec fn json_shown_at(text: Seq<char>, key: Seq<char>) -> Seq<char>;

/// `serde_json::from_str` for a `Value`: what it says against a text that is
/// not JSON, and nothing otherwise.
#[verifier::external_body]
pub(crate) fn json_complaint(text: &str) -> (r: Option<String>)
    ensures
        opt_text(r) == json_fault(text@),
{
    match serde_json::from_str::<serde_json::Value>(text) {
        Ok(_) => None,
        Err(error) => Some(error.to_string()),
    }
}

/// `serde_json::Value`'s `Display` on the value of a JSON text: its compact
/// form. A text that is not JSON has none.
#[verifier::external_body]
pub(crate) fn compact_json(text: &str) -> (r: Option<String>)
    ensures
        match r {
            Some(compact) => json_fault(text@) is None && compact@ == json_compact(text@),
            None => json_fault(text@) is Some,
        },
{
    match serde_json::from_str::<serde_json::Value>(text) {
        Ok(value) => Some(value.to_string()),
        Err(_) => None,
    }
}

/// `serde_json::Value::get` with a string, then `Value::as_str`, on the value
/// of a text: the string under a key of a JSON object, and nothing for a key
/// that is missing, for another type, or for a text that is not JSON.
#[verifier::external_body]
pub(crate) fn json_text_field(text: &str, key: &str) -> (r: Option<String>)
    ensures
        opt_text(r) == json_string_at(text@, key@),
        r is Some ==> json_fault(text@) is None,
{
    match serde_json::from_str::<serde_json::Value>(text) {
        Ok(value) => value.get(key).and_then(serde_json::Value::as_str).map(str::to_owned),
        Err(_) => None,
    }
}

/// `serde_json::Value::get` with a string, then `Value::as_bool`, on the value
/// of a text: the truth value under a key of a JSON object, and nothing for a
/// key that is missing, for another type, or for a text that is not JSON.
#[verifier::external_body]
pub(crate) fn json_bool_field(text: &str, key: &str) -> (r: Option<bool>)
    ensures
        r == json_bool_at(text@, key@),
        r is Some ==> json_fault(text@) is None,
{
    match serde_json::from_str::<serde_json::Value>(text) {
        Ok(value) => value.get(key).and_then(serde_json::Value::as_bool),
        Err(_) => None,
    }
}

/// `serde_json::Value::get` with a string on the value of a text: whether a
/// JSON object has the key. A text that is not JSON has none.
#[verifier::external_body]
pub(crate) fn json_has_field(text: &str, key: &str) -> (r: bool)
    ensures
        r == json_has_key(text@, key@),
        r ==> json_fault(text@) is None,
{
    match serde_json::from_str::<serde_json::Value>(text) {
        Ok(value) => value.get(key).is_some(),
        Err(_) => false,
    }
}

/// `serde_json::Value`'s `Debug` on what stands under a key of the value of a
/// text, and on `null` where nothing does.
#[verifier::external_body]
pub(crate) fn json_shown_field(text: &str, key: &str) -> (r: String)
    ensures
        r@ == json_shown_at(text@, key@),
{
    let value = serde_json::from_str::<serde_json::Value>(text).unwrap_or(serde_json::Value::Null);
    format!("{:?}", value[key])
}

} // verus!
