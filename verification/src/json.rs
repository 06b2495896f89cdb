//! The trusted boundary to serde_json: the opaque JSON document type, the
//! decode-error type, and the few calls the core makes on them. Each call's
//! result depends on its arguments alone, so it is given a name, and every
//! decision the core takes on a document is stated over those names.

use vstd::prelude::*;

verus! {

/// A JSON document, opaque to the core.
#[verifier::external_type_specification]
#[verifier::external_body]
pub struct ExValue(serde_json::Value);

/// A JSON decode failure, opaque to the core.
#[verifier::external_type_specification]
#[verifier::external_body]
pub struct ExJsonError(serde_json::Error);

/// The document a byte sequence decodes to, when it is valid JSON; a name
/// for what serde_json::from_slice returns, which depends on the bytes alone.
pub uninterp spec fn spec_json_doc(bytes: Seq<u8>) -> Option<serde_json::Value>;

/// The text a document renders to; a name for what the Display impl of
/// serde_json::Value returns, which depends on the document alone.
pub uninterp spec fn spec_json_text(v: serde_json::Value) -> Seq<char>;

/// The field a key names in a document, if the document is an object
/// carrying it; a name for what serde_json::Value::get returns, which
/// depends on the document and the key alone.
pub uninterp spec fn spec_json_field(v: serde_json::Value, key: Seq<char>) -> Option<
    serde_json::Value,
>;

/// The content of a document that is a JSON string, if it is one; a name for
/// what serde_json::Value::as_str returns, which depends on the document
/// alone.
pub uninterp spec fn spec_json_str(v: serde_json::Value) -> Option<Seq<char>>;

/// The text of the string field a key names in a document, if it is there:
/// the lookup and the string read, composed.
pub open spec fn spec_text_field(v: serde_json::Value, key: Seq<char>) -> Option<Seq<char>> {
    match spec_json_field(v, key) {
        Some(field) => spec_json_str(field),
        None => None,
    }
}

/// Relies on serde_json::from_slice: decodes one JSON document from bytes.
#[verifier::external_body]
pub fn json_from_slice(bytes: &[u8]) -> (r: Result<serde_json::Value, serde_json::Error>)
    ensures
        r matches Ok(v) ==> spec_json_doc(bytes@) == Some(v),
        r is Err ==> spec_json_doc(bytes@) is None,
{
    serde_json::from_slice(bytes)
}

/// Relies on serde_json::Value::get: looks a key up in a JSON object,
/// yielding nothing on any other document shape.
#[verifier::external_body]
pub fn json_get<'a>(v: &'a serde_json::Value, key: &str) -> (r: Option<&'a serde_json::Value>)
    ensures
        r matches Some(field) ==> spec_json_field(*v, key@) == Some(*field),
        r is None ==> spec_json_field(*v, key@) is None,
{
    v.get(key)
}

/// Relies on serde_json::Value::as_str: the content of a JSON string,
/// yielding nothing on any other document shape.
#[verifier::external_body]
pub fn json_as_str(v: &serde_json::Value) -> (r: Option<String>)
    ensures
        r matches Some(text) ==> spec_json_str(*v) == Some(text@),
        r is None ==> spec_json_str(*v) is None,
{
    v.as_str().map(|raw| raw.to_owned())
}

/// Relies on the Display impl of serde_json::Value: the document rendered
/// as JSON text.
#[verifier::external_body]
pub fn json_render(v: &serde_json::Value) -> (r: String)
    ensures
        r@ == spec_json_text(*v),
{
    v.to_string()
}

/// Relies on the Display impl of serde_json::Error: the decode failure's
/// message. The message is reporting detail; nothing is decided on it.
#[verifier::external_body]
pub fn json_error_message(e: &serde_json::Error) -> (r: String) {
    e.to_string()
}

} // verus!
