//! Reading parameters out of a request's query string, through the
//! `qstring` crate.
//!
//! The parser indexes the query text by bytes, so it is safe only on ASCII
//! input — which a request target is on the wire. The wrapper demands that,
//! and the transport layer checks it before handing a query string in.

use vstd::prelude::*;

verus! {

/// What the parsed query string holds for a key: the percent-decoded value
/// of the first pair whose decoded key matches, the empty sequence for a
/// pair written without a value, or nothing when no pair carries the key.
/// A pure function of the two strings.
pub uninterp spec fn qs_param(query: Seq<char>, key: Seq<char>) -> Option<Seq<char>>;

/// Relies on `qstring::QString`: `from` parses the query string (an
/// optional leading `?`, `&`-separated pairs, keys and values
/// percent-decoded) and `get` hands back the value of the first pair whose
/// key equals `key`, the empty string for a pair without a value. Both
/// depend on their string arguments alone.
///
/// The query string must be ASCII: the parser slices it at byte offsets
/// that are char boundaries only then, and panics otherwise. On ASCII
/// input every slice it takes is at an ASCII position, so the call returns.
#[verifier::external_body]
pub fn query_param(query: &str, key: &str) -> (r: Option<String>)
    requires
        query.is_ascii(),
    ensures
        (r is Some) == (qs_param(query@, key@) is Some),
        r matches Some(v) ==> qs_param(query@, key@) == Some(v@),
{
    qstring::QString::from(query).get(key).map(|v| v.to_string())
}

} // verus!
