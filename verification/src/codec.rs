//! Decoders applied to the request's payload and query string.
//!
//! The body helpers hand these functions plain bytes or text; each function
//! delegates to the corresponding serialization library and reports failure
//! as a plain value, so the callers can state exactly when they succeed.

use vstd::prelude::*;
use vstd::utf8::{decode_utf8, valid_utf8};

use crate::error::Error;

verus! {

/// Relies on `String::from_utf8`: it succeeds exactly on valid UTF-8 input
/// and returns the characters that input encodes.
#[verifier::external_body]
pub(crate) fn string_from_utf8(bytes: Vec<u8>) -> (r: Result<String, Error>)
    ensures
        r is Ok <==> valid_utf8(bytes@),
        r is Ok ==> r->Ok_0@ == decode_utf8(bytes@),
        r is Err ==> r->Err_0 is InvalidData,
{
    match String::from_utf8(bytes) {
        Ok(s) => Ok(s),
        Err(_) => Err(Error::InvalidData),
    }
}

/// Relies on `serde_json::from_slice`: it deserializes the bytes into `T`
/// under JSON rules, or fails. Which value comes back is not modeled; the
/// error is collapsed to the library's data-format error.
#[verifier::external_body]
pub(crate) fn json_from_slice<T: serde::de::DeserializeOwned>(bytes: &[u8]) -> (r: Result<
    T,
    Error,
>)
    ensures
        r is Err ==> r->Err_0 is InvalidData,
{
    match serde_json::from_slice(bytes) {
        Ok(v) => Ok(v),
        Err(_) => Err(Error::InvalidData),
    }
}

/// Relies on `serde_qs::from_bytes`: it deserializes the bytes into `T`
/// under URL-encoded-form rules, or fails. Which value comes back is not
/// modeled; on failure the decoder's message is returned as text.
#[verifier::external_body]
pub(crate) fn form_from_bytes<T: serde::de::DeserializeOwned>(bytes: &[u8]) -> (r: Result<
    T,
    String,
>)
{
    match serde_qs::from_bytes(bytes) {
        Ok(v) => Ok(v),
        Err(e) => Err(e.to_string()),
    }
}

/// Relies on `serde_qs::from_str`: it deserializes the text into `T` under
/// URL-encoded-query rules, or fails. Which value comes back is not modeled;
/// on failure the decoder's message is returned as text.
#[verifier::external_body]
pub(crate) fn query_from_str<T: serde::de::DeserializeOwned>(text: &str) -> (r: Result<
    T,
    String,
>)
{
    match serde_qs::from_str(text) {
        Ok(v) => Ok(v),
        Err(e) => Err(e.to_string()),
    }
}

/// Relies on `String::push_str`: it appends the given text to the string.
#[verifier::external_body]
pub(crate) fn append_str(s: &mut String, tail: &str)
    ensures
        final(s)@ == old(s)@ + tail@,
{
    s.push_str(tail);
}

} // verus!
