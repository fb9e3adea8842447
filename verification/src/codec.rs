//! Trusted boundary to the encoding crates.
//!
//! The relay leans on two outside crates for pure, deterministic text work:
//! base64 for the audio payloads and serde_json for reading and writing JSON
//! event texts. Each call goes through exactly one wrapper here; what a
//! result looks like in full is beyond a few lines, so it is given a name
//! (an uninterpreted spec function) and the wrappers state their contracts
//! over those names. Everything else in the crate is verified against them.

use vstd::prelude::*;

verus! {

/// The standard padded base64 rendering of a byte sequence, as produced by
/// base64's `STANDARD` engine.
pub uninterp spec fn b64_encoding(bytes: Seq<u8>) -> Seq<char>;

/// What standard base64 decoding yields on a text: the decoded bytes, or
/// nothing when the text is not valid padded base64.
pub uninterp spec fn b64_decoding(text: Seq<char>) -> Option<Seq<u8>>;

/// The string value under `key` at the top level of `text` read as a JSON
/// object: present exactly when `text` parses as JSON, holds `key` at top
/// level, and that field is a JSON string.
pub uninterp spec fn json_str_field(text: Seq<char>, key: Seq<char>) -> Option<Seq<char>>;

/// The JSON string literal (quotes and escapes included) denoting a text.
pub uninterp spec fn json_quoted(text: Seq<char>) -> Seq<char>;

/// Relies on base64's `Engine::encode` with the `STANDARD` engine: the
/// rendering is a function of the bytes alone, and the same engine's
/// `decode` recovers exactly those bytes from it (its documentation shows
/// the round trip). The length bound keeps the engine's internal buffer-size
/// arithmetic within `usize`.
#[verifier::external_body]
pub(crate) fn encode_base64(data: &[u8]) -> (r: String)
    requires
        data@.len() <= usize::MAX / 2,
    ensures
        r@ == b64_encoding(data@),
        b64_decoding(r@) == Some(data@),
{
    base64::Engine::encode(&base64::engine::general_purpose::STANDARD, data)
}

/// Relies on base64's `Engine::decode` with the `STANDARD` engine: it
/// returns the decoded bytes exactly when the input is valid padded base64,
/// and an error otherwise.
#[verifier::external_body]
pub(crate) fn decode_base64(text: &str) -> (r: Option<Vec<u8>>)
    ensures
        match r {
            Some(bytes) => b64_decoding(text@) == Some(bytes@),
            None => b64_decoding(text@) is None,
        },
{
    base64::Engine::decode(&base64::engine::general_purpose::STANDARD, text).ok()
}

/// Relies on serde_json: `from_str` to parse the event text, `Value::get`
/// and `Value::as_str` to read one top-level string field. The outcome is a
/// function of the two texts alone.
#[verifier::external_body]
pub(crate) fn json_string_field(text: &str, key: &str) -> (r: Option<String>)
    ensures
        match r {
            Some(value) => json_str_field(text@, key@) == Some(value@),
            None => json_str_field(text@, key@) is None,
        },
{
    let parsed: serde_json::Value = serde_json::from_str(text).ok()?;
    Some(parsed.get(key)?.as_str()?.to_string())
}

/// Relies on serde_json's `to_string`: serializing a `str` yields the JSON
/// string literal denoting it, and per its documentation that serialization
/// cannot fail.
#[verifier::external_body]
pub(crate) fn quote_json_string(text: &str) -> (r: String)
    ensures
        r@ == json_quoted(text@),
{
    match serde_json::to_string(text) {
        Ok(quoted) => quoted,
        Err(_) => String::new(),
    }
}

} // verus!
