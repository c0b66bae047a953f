//! The name/uid index: a process-wide mapping from display names to the
//! store's permanent identifiers, built once at startup from every node that
//! carries a name, last write winning when names collide.
//!
//! The index is not authoritative: a miss means only that the name was not
//! seen when the index was built or extended, and callers fall back to the
//! store.

use vstd::prelude::*;
use crate::model::{Node, NodeView};
use crate::text::str_eq;

verus! {

/// The mapping that a list of nodes builds up, in order: a later node with
/// the same name wins.
pub open spec fn map_of_nodes(s: Seq<NodeView>) -> Map<Seq<char>, Seq<char>>
    decreases s.len(),
{
    if s.len() == 0 {
        Map::empty()
    } else {
        map_of_nodes(s.drop_last()).insert(s.last().name, s.last().uid)
    }
}

/// A name seen by no node is absent from the mapping.
proof fn lemma_map_of_nodes_absent(s: Seq<NodeView>, name: Seq<char>)
    requires
        forall|j: int| 0 <= j < s.len() ==> (#[trigger] s[j]).name != name,
    ensures
        !map_of_nodes(s).contains_key(name),
    decreases s.len(),
{
    if s.len() > 0 {
        lemma_map_of_nodes_absent(s.drop_last(), name);
    }
}

/// The mapping sends a name to the uid of the last node that carries it.
proof fn lemma_map_of_nodes_found(s: Seq<NodeView>, name: Seq<char>, i: int)
    requires
        0 <= i < s.len(),
        s[i].name == name,
        forall|j: int| i < j < s.len() ==> (#[trigger] s[j]).name != name,
    ensures
        map_of_nodes(s).contains_key(name),
        map_of_nodes(s)[name] == s[i].uid,
    decreases s.len(),
{
    if i < s.len() - 1 {
        lemma_map_of_nodes_found(s.drop_last(), name, i);
    }
}

/// The process-wide name-to-identifier cache.
pub struct NameIndex {
    entries: Vec<Node>,
}

impl View for NameIndex {
    type V = Map<Seq<char>, Seq<char>>;

    closed spec fn view(&self) -> Map<Seq<char>, Seq<char>> {
        map_of_nodes(self.entries.deep_view())
    }
}

impl NameIndex {
    /// An empty index.
    pub fn new() -> (r: NameIndex)
        ensures
            r@ == Map::<Seq<char>, Seq<char>>::empty(),
    {
        NameIndex { entries: Vec::new() }
    }

    /// Records that `name` now resolves to `uid`, shadowing any earlier
    /// entry of the same name.
    pub fn insert(&mut self, name: String, uid: String)
        ensures
            final(self)@ == old(self)@.insert(name@, uid@),
    {
        let ghost before = self.entries.deep_view();
        self.entries.push(Node { uid, name });
        proof {
            assert(self.entries.deep_view().drop_last() =~= before);
        }
    }

    /// The identifier the index holds for `name`: exactly the mapping's
    /// entry, or nothing when the name was never recorded.
    #[verifier::loop_isolation(false)]
    pub fn resolve(&self, name: &str) -> (r: Option<String>)
        ensures
            match r {
                Some(u) => self@.contains_key(name@) && self@[name@] == u@,
                None => !self@.contains_key(name@),
            },
    {
        let ghost dv = self.entries.deep_view();
        let n = self.entries.len();
        let mut i: usize = n;
        while i > 0
            invariant
                0 <= i <= n,
                forall|j: int| i <= j < n ==> (#[trigger] dv[j]).name != name@,
            decreases i,
        {
            i = i - 1;
            if str_eq(self.entries[i].name.as_str(), name) {
                proof {
                    lemma_map_of_nodes_found(dv, name@, i as int);
                }
                return Some(self.entries[i].uid.clone());
            }
        }
        proof {
            lemma_map_of_nodes_absent(dv, name@);
        }
        None
    }

    /// Builds the index from the nodes of the startup scan, in their
    /// store-returned order: the mapping is exactly `map_of_nodes` of that
    /// list, so a name that repeats keeps its last uid.
    #[verifier::loop_isolation(false)]
    pub fn build(nodes: &Vec<Node>) -> (r: NameIndex)
        ensures
            r@ == map_of_nodes(nodes.deep_view()),
    {
        let ghost dv = nodes.deep_view();
        let n = nodes.len();
        let mut idx = NameIndex::new();
        let mut i: usize = 0;
        while i < n
            invariant
                0 <= i <= n,
                idx@ == map_of_nodes(dv.subrange(0, i as int)),
            decreases n - i,
        {
            idx.insert(nodes[i].name.clone(), nodes[i].uid.clone());
            proof {
                let upto = dv.subrange(0, i + 1);
                assert(upto.drop_last() =~= dv.subrange(0, i as int));
                assert(upto.last() == dv[i as int]);
            }
            i = i + 1;
        }
        proof {
            assert(dv.subrange(0, n as int) =~= dv);
        }
        idx
    }
}

} // verus!
