//! The upsert committer's identifier resolution: a record goes to the store
//! under a placeholder label or an already-permanent identifier, and the
//! identifier the caller uses afterwards is read off the commit response —
//! keyed by the record's name — with the record's own identifier as the
//! fallback.

use vstd::prelude::*;
use vstd::string::StringExecFns;
use crate::model::{Person, PersonView};
use crate::text::str_eq;

verus! {

/// The placeholder label derived from a name, as it goes into a creating
/// mutation.
pub open spec fn spec_placeholder_label(name: Seq<char>) -> Seq<char> {
    "_:"@ + name
}

/// Is this the shape of a placeholder label rather than a store-assigned
/// identifier?
pub open spec fn is_placeholder(s: Seq<char>) -> bool {
    s.len() >= 2 && s[0] == '_' && s[1] == ':'
}

/// A placeholder label is placeholder-shaped.
pub proof fn lemma_placeholder_label_shape(name: Seq<char>)
    ensures
        is_placeholder(spec_placeholder_label(name)),
        spec_placeholder_label(name).len() == name.len() + 2,
{
    reveal_strlit("_:");
}

/// Derives the placeholder label for a name.
pub fn placeholder_label(name: &str) -> (r: String)
    ensures
        r@ == spec_placeholder_label(name@),
{
    String::from_str("_:").concat(name)
}

impl Person {
    /// The record a fresh name is created with: the placeholder label as its
    /// identifier, the name itself, and nothing else.
    pub fn placeholder_record(name: String) -> (r: Person)
        ensures
            r@.uid == Some(spec_placeholder_label(name@)),
            r@.name == Some(name@),
            r@.email is None,
            r@.discord is None,
            r@.instagram is None,
            r@.snapchat is None,
            r@.x is None,
            r@.school is None,
            r@.friends is None,
            r@.misc is None,
    {
        let label = placeholder_label(name.as_str());
        Person {
            uid: Some(label),
            name: Some(name),
            email: None,
            discord: None,
            instagram: None,
            snapchat: None,
            x: None,
            school: None,
            friends: None,
            misc: None,
        }
    }
}

/// The first identifier a response maps a key to, if any.
pub open spec fn spec_uid_lookup(pairs: Seq<(Seq<char>, Seq<char>)>, key: Seq<char>) -> Option<
    Seq<char>,
>
    decreases pairs.len(),
{
    if pairs.len() == 0 {
        None
    } else if pairs[0].0 == key {
        Some(pairs[0].1)
    } else {
        spec_uid_lookup(pairs.drop_first(), key)
    }
}

/// The identifier a committed record is known by from here on: the one the
/// response minted under the record's name, or the record's own identifier
/// when the response minted none (an update of an already-permanent
/// record).
pub open spec fn spec_resolved_uid(p: PersonView, pairs: Seq<(Seq<char>, Seq<char>)>) -> Seq<
    char,
> {
    match spec_uid_lookup(pairs, p.name->0) {
        Some(u) => u,
        None => p.uid->0,
    }
}

/// Resolves the identifier after a commit, from the response's label-to-uid
/// pairs. The lookup key is the record's name — the same coupling the
/// placeholder label rests on.
#[verifier::loop_isolation(false)]
pub fn resolve_assigned_uid(person: &Person, uids: &Vec<(String, String)>) -> (r: String)
    requires
        person@.name is Some,
        person@.uid is Some,
    ensures
        r@ == spec_resolved_uid(person@, uids.deep_view()),
{
    let ghost pairs = uids.deep_view();
    let name = person.get_name();
    let n = uids.len();
    proof {
        assert(pairs.subrange(0, n as int) =~= pairs);
    }
    let mut i: usize = 0;
    while i < n
        invariant
            0 <= i <= n,
            spec_uid_lookup(pairs, name@) == spec_uid_lookup(
                pairs.subrange(i as int, n as int),
                name@,
            ),
        decreases n - i,
    {
        let ghost pre = pairs.subrange(i as int, n as int);
        if str_eq(uids[i].0.as_str(), name.as_str()) {
            proof {
                assert(pre[0] == pairs[i as int]);
            }
            return uids[i].1.clone();
        }
        proof {
            assert(pre[0] == pairs[i as int]);
            assert(pre.drop_first() =~= pairs.subrange(i + 1, n as int));
        }
        i = i + 1;
    }
    proof {
        assert(pairs.subrange(i as int, n as int).len() == 0);
    }
    person.get_uid()
}

} // verus!
