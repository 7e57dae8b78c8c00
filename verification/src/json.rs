//! JSON text as the components need it. Values pass through unread; only
//! their rendering is asked of `serde_json`.

use vstd::prelude::*;

verus! {

/// A JSON value. Nothing in this crate looks inside one.
#[verifier::external_type_specification]
#[verifier::external_body]
pub struct ExValue(serde_json::Value);

/// Why `serde_json` could not render or read something.
#[verifier::external_type_specification]
#[verifier::external_body]
pub struct ExJsonError(serde_json::Error);

/// The JSON string literal for `text`: quoted, with escapes, as
/// `serde_json::to_string` writes a `str`.
pub uninterp spec fn json_string(text: Seq<char>) -> Seq<char>;

/// The compact JSON text of `value`, as `serde_json::to_string` writes a
/// `Value`.
pub uninterp spec fn json_text(value: serde_json::Value) -> Seq<char>;

/// Renders `text` as a JSON string literal.
///
/// Trusted: wraps `serde_json::to_string` on a `str`. The contract says
/// that the call succeeds, since writing a `str` into memory has no failing
/// branch, and names the text that comes back.
#[verifier::external_body]
pub(crate) fn quote(text: &str) -> (out: Result<String, serde_json::Error>)
    ensures
        out is Ok,
        out matches Ok(literal) ==> literal@ == json_string(text@),
{
    serde_json::to_string(text)
}

/// Renders `value` as compact JSON text.
///
/// Trusted: wraps `serde_json::to_string` on a `Value`. The contract says
/// that the call succeeds, since a `Value` has string keys only and writing
/// it into memory has no failing branch, and names the text that comes
/// back.
#[verifier::external_body]
pub(crate) fn render(value: &serde_json::Value) -> (out: Result<String, serde_json::Error>)
    ensures
        out is Ok,
        out matches Ok(rendered) ==> rendered@ == json_text(*value),
{
    serde_json::to_string(value)
}

/// The message of a `serde_json` error.
///
/// Trusted: wraps the error's `Display` through `to_string`. Nothing is
/// claimed of the message.
#[verifier::external_body]
pub(crate) fn error_text(error: &serde_json::Error) -> (message: String) {
    error.to_string()
}

} // verus!
