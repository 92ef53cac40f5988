//! The JSON calls the gateway makes, and the names for what they return.

use vstd::prelude::*;

verus! {

/// An opaque JSON document, carried through unchanged.
#[verifier::external_type_specification]
#[verifier::external_body]
pub struct ExJsonValue(serde_json::Value);

/// Whether a byte sequence is a complete, well-formed JSON document.
pub uninterp spec fn is_json_document(b: Seq<u8>) -> bool;

/// Relies on serde_json::from_slice: it yields a value exactly when the bytes
/// form one JSON document.
#[verifier::external_body]
pub(crate) fn parse_document(bytes: &[u8]) -> (r: Option<serde_json::Value>)
    ensures
        r.is_some() == is_json_document(bytes@),
{
    serde_json::from_slice::<serde_json::Value>(bytes).ok()
}

/// The JSON string literal for a text: quoted, with its escapes.
pub uninterp spec fn json_string(s: Seq<char>) -> Seq<char>;

/// Relies on serde_json's `Display` of `Value::String`: the compact JSON form
/// of the string, which depends on the text alone.
#[verifier::external_body]
pub(crate) fn json_string_text(s: &str) -> (r: String)
    ensures
        r@ == json_string(s@),
{
    serde_json::Value::String(s.to_string()).to_string()
}

} // verus!

pub use serde_json::Value as JsonValue;
