//! Route-parameter tables.
//!
//! Each router level that matched the request contributes one
//! [`route_recognizer::Params`] table mapping parameter names to the path
//! segments they captured, outermost table first. Lookup searches the tables
//! innermost-first, so a nested router's parameter shadows an outer router's
//! parameter of the same name.

use vstd::prelude::*;

verus! {

/// The route matcher's parameter table, declared so it can stand in
/// signatures and fields; its contents are visible to specifications only
/// through [`params_entries`].
#[verifier::external_type_specification]
#[verifier::external_body]
pub struct ExParams(route_recognizer::Params);

/// The contents of one parameter table: each declared parameter name, mapped
/// to the path segment it captured.
pub uninterp spec fn params_entries(params: route_recognizer::Params) -> Map<Seq<char>, Seq<char>>;

/// Relies on `route_recognizer::Params::find`: the value stored under `key`,
/// if the table declares that parameter.
#[verifier::external_body]
pub(crate) fn params_find(params: &route_recognizer::Params, key: &str) -> (r: Option<String>)
    ensures
        r is Some <==> params_entries(*params).dom().contains(key@),
        r is Some ==> r->0@ == params_entries(*params)[key@],
{
    params.find(key).map(|s| s.to_string())
}

/// Relies on `str::parse`: the string parsed into `T` through `T`'s
/// `FromStr` implementation, or no value when that implementation rejects
/// the string. Which value comes back is not modeled.
#[verifier::external_body]
pub(crate) fn parse_str<T: core::str::FromStr>(s: &str) -> Option<T> {
    s.parse().ok()
}

/// The innermost-first search over a stack of parameter tables: the value the
/// last (innermost) table holds for `name`, or failing that the next table
/// out, and so on; `None` when no table declares `name`.
pub open spec fn lookup(tables: Seq<route_recognizer::Params>, name: Seq<char>) -> Option<Seq<char>>
    decreases tables.len(),
{
    if tables.len() == 0 {
        None
    } else if params_entries(tables.last()).dom().contains(name) {
        Some(params_entries(tables.last())[name])
    } else {
        lookup(tables.drop_last(), name)
    }
}

/// Law: a nested router's parameter shadows an outer router's parameter of
/// the same name. Whenever the innermost table of a stack binds `name`, the
/// search returns that binding, whatever any outer table holds.
pub proof fn lemma_inner_binding_shadows_outer(
    tables: Seq<route_recognizer::Params>,
    name: Seq<char>,
)
    requires
        tables.len() > 0,
        params_entries(tables.last()).dom().contains(name),
    ensures
        lookup(tables, name) == Some(params_entries(tables.last())[name]),
{
}

} // verus!
