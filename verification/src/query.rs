//! The query builder: the fixed read-query shapes sent to the store, every
//! caller-supplied value passed as a bound variable and never spliced into
//! the text.

use vstd::prelude::*;

verus! {

/// The read query selecting records whose name equals the bound variable.
pub open spec fn spec_query_by_name() -> Seq<char> {
    "query all($a: string) { all(func: eq(name, $a)) { uid name email discord { uid handle display_name user_id } instagram { handle display_name user_id } snapchat x { handle display_name user_id } school { name schooltype } friends { uid } misc } }"@
}

/// The read query selecting the record whose identifier equals the bound
/// variable.
pub open spec fn spec_query_by_uid() -> Seq<char> {
    "query all($a: string) { all(func: uid($a)) { uid name email discord { uid handle display_name user_id } instagram { handle display_name user_id } snapchat x { handle display_name user_id } school { name schooltype } friends { uid } misc } }"@
}

/// The read query selecting every record that carries a name.
pub open spec fn spec_query_all() -> Seq<char> {
    "query all { all(func: has(name)) { uid name email discord { uid handle display_name user_id } instagram { handle display_name user_id } snapchat x { handle display_name user_id } school { name schooltype } friends { uid } misc } }"@
}

/// The startup scan projecting (identifier, name) off every named node.
pub open spec fn spec_query_nodes() -> Seq<char> {
    "query { queryNodes(func: has(name)) { uid name } }"@
}

/// The name of the one bound variable the parameterized queries take.
pub open spec fn spec_bound_var() -> Seq<char> {
    "$a"@
}

/// The schema installed at bootstrap: the name attribute exact-indexed, and
/// the (unused) integer age attribute.
pub open spec fn spec_schema_text() -> Seq<char> {
    "name: string @index(exact) .\nage: int .\n"@
}

/// The by-name read query; the name goes in as the bound variable.
pub fn query_by_name() -> (r: &'static str)
    ensures
        r@ == spec_query_by_name(),
{
    "query all($a: string) { all(func: eq(name, $a)) { uid name email discord { uid handle display_name user_id } instagram { handle display_name user_id } snapchat x { handle display_name user_id } school { name schooltype } friends { uid } misc } }"
}

/// The by-identifier read query; the identifier goes in as the bound
/// variable.
pub fn query_by_uid() -> (r: &'static str)
    ensures
        r@ == spec_query_by_uid(),
{
    "query all($a: string) { all(func: uid($a)) { uid name email discord { uid handle display_name user_id } instagram { handle display_name user_id } snapchat x { handle display_name user_id } school { name schooltype } friends { uid } misc } }"
}

/// The read query for every record, unparameterized.
pub fn query_all() -> (r: &'static str)
    ensures
        r@ == spec_query_all(),
{
    "query all { all(func: has(name)) { uid name email discord { uid handle display_name user_id } instagram { handle display_name user_id } snapchat x { handle display_name user_id } school { name schooltype } friends { uid } misc } }"
}

/// The startup scan that feeds the name/uid index.
pub fn query_nodes() -> (r: &'static str)
    ensures
        r@ == spec_query_nodes(),
{
    "query { queryNodes(func: has(name)) { uid name } }"
}

/// The bound variable's name.
pub fn bound_var() -> (r: &'static str)
    ensures
        r@ == spec_bound_var(),
{
    "$a"
}

/// The bootstrap schema.
pub fn schema_text() -> (r: &'static str)
    ensures
        r@ == spec_schema_text(),
{
    "name: string @index(exact) .\nage: int .\n"
}

} // verus!
