//! Declarations for the HTTP metadata types the request carries.
//!
//! Method, URI, version and headers are parsed by the platform's HTTP
//! library before the request reaches this crate; the request stores them
//! as they came. They are opaque here, except for the headers' textual
//! contents, which [`header_entries`] exposes to specifications.

use vstd::prelude::*;

verus! {

#[verifier::external_type_specification]
#[verifier::external_body]
pub struct ExMethod(http::Method);

#[verifier::external_type_specification]
#[verifier::external_body]
pub struct ExUri(http::Uri);

#[verifier::external_type_specification]
#[verifier::external_body]
pub struct ExVersion(http::Version);

#[verifier::external_type_specification]
#[verifier::external_body]
#[verifier::reject_recursive_types(T)]
pub struct ExHeaderMap<T>(http::HeaderMap<T>);

#[verifier::external_type_specification]
#[verifier::external_body]
pub struct ExHeaderValue(http::HeaderValue);

/// The textual contents of a header map: each header name under which a
/// lookup finds a first value representable as text, mapped to that text.
pub uninterp spec fn header_entries(headers: http::HeaderMap<http::HeaderValue>) -> Map<
    Seq<char>,
    Seq<char>,
>;

/// Relies on `http::HeaderMap::get` for the first value under the given
/// name, and on `http::HeaderValue::to_str` to read it as text. A value that
/// is present but not representable as text is reported as absent.
#[verifier::external_body]
pub(crate) fn header_get(headers: &http::HeaderMap<http::HeaderValue>, key: &str) -> (r: Option<
    String,
>)
    ensures
        r is Some <==> header_entries(*headers).dom().contains(key@),
        r is Some ==> r->0@ == header_entries(*headers)[key@],
{
    headers.get(key).and_then(|v| v.to_str().ok()).map(|s| s.to_string())
}

} // verus!
