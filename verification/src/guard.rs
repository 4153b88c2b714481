//! The startup collision guard: before the listener binds, the directory's
//! point-in-time topology snapshot is searched for an existing node announced
//! at this node's own address. A match aborts startup, surfacing the
//! conflicting node's public key; the check is best-effort against a
//! snapshot, not a mutual-exclusion guarantee.

use vstd::prelude::*;

verus! {

/// One entry of the directory's topology snapshot: a node's announced host
/// and its public key.
pub struct TopologyNode {
    pub host: String,
    pub public_key: String,
}

/// Searches the snapshot for a node announced at `announce_host`. Returns
/// the public key of the first such node — the diagnostic the operator sees
/// before startup aborts — or nothing when no announced host matches, in
/// which case startup may proceed.
pub fn find_duplicate_node(nodes: &Vec<TopologyNode>, announce_host: &String) -> (r: Option<
    String,
>)
    ensures
        match r {
            Some(key) => exists|i: int|
                {
                    &&& 0 <= i < nodes@.len()
                    &&& nodes@[i].host@ == announce_host@
                    &&& key@ == nodes@[i].public_key@
                    &&& forall|j: int| 0 <= j < i ==> #[trigger] nodes@[j].host@ != announce_host@
                },
            None => forall|i: int|
                0 <= i < nodes@.len() ==> #[trigger] nodes@[i].host@ != announce_host@,
        },
{
    let mut i: usize = 0;
    while i < nodes.len()
        invariant
            i <= nodes@.len(),
            forall|j: int| 0 <= j < i ==> #[trigger] nodes@[j].host@ != announce_host@,
        decreases nodes@.len() - i,
    {
        if nodes[i].host == *announce_host {
            let key = nodes[i].public_key.clone();
            proof {
                assert(0 <= i < nodes@.len() && nodes@[i as int].host@ == announce_host@ && key@
                    == nodes@[i as int].public_key@);
            }
            return Some(key);
        }
        i = i + 1;
    }
    None
}

} // verus!
