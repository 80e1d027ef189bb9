//! The request's extension map ("locals"): heterogeneous, type-keyed storage
//! that lets middleware attach request-scoped data of arbitrary types for a
//! handler to read. The map holds at most one value per type; storing a
//! value of a type already present overwrites the old one.
//!
//! The map's contents are type-erased, so nothing is stated about them here;
//! the typed accessors on the request are trusted as thin delegations.

use vstd::prelude::*;

verus! {

/// The platform's type-keyed extension map, declared so it can stand in a
/// field; its contents are not modeled.
#[verifier::external_type_specification]
#[verifier::external_body]
pub struct ExExtensions(http::Extensions);

/// Relies on `http::Extensions::new`: a fresh, empty extension map.
#[verifier::external_body]
pub(crate) fn new_extensions() -> http::Extensions {
    http::Extensions::new()
}

} // verus!
