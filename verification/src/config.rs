//! The declared topology: which nodes exist, and whom each may send to.

use std::collections::HashSet;
use vstd::prelude::*;

verus! {

broadcast use vstd::std_specs::hash::group_hash_axioms;

/// Identifier of a node. No two nodes of a well-formed topology share one,
/// whatever their roles.
pub type NodeId = u8;

/// The elements among the first `i + 1` of a sequence are those among the
/// first `i`, and the one at `i`.
pub(crate) proof fn lemma_prefix_set_step<A>(s: Seq<A>, i: int)
    requires
        0 <= i < s.len(),
    ensures
        s.take(i + 1).to_set() == s.take(i).to_set().insert(s[i]),
{
    assert(s.take(i + 1) =~= s.take(i).push(s[i]));
    s.take(i).lemma_push_to_set_commute(s[i]);
}

/// A forwarding node. `R` is the type of its packet drop rate, which this
/// library hands to the drone's factory without looking at it.
#[derive(Debug)]
pub struct Drone<R> {
    pub id: NodeId,
    pub connected_node_ids: Vec<NodeId>,
    pub pdr: R,
}

/// An endpoint that starts conversations.
#[derive(Debug)]
pub struct Client {
    pub id: NodeId,
    pub connected_drone_ids: Vec<NodeId>,
}

/// An endpoint that answers them.
#[derive(Debug)]
pub struct Server {
    pub id: NodeId,
    pub connected_drone_ids: Vec<NodeId>,
}

/// A whole topology: the nodes of the three roles, in the order of their
/// declaration.
#[derive(Debug)]
pub struct Config<R> {
    pub drone: Vec<Drone<R>>,
    pub client: Vec<Client>,
    pub server: Vec<Server>,
}

impl<R> Config<R> {
    /// The ids of the drones, in declaration order.
    pub open spec fn drone_ids(&self) -> Seq<NodeId> {
        Seq::new(self.drone@.len(), |i: int| self.drone@[i].id)
    }

    /// The ids of the clients, in declaration order.
    pub open spec fn client_ids(&self) -> Seq<NodeId> {
        Seq::new(self.client@.len(), |i: int| self.client@[i].id)
    }

    /// The ids of the servers, in declaration order.
    pub open spec fn server_ids(&self) -> Seq<NodeId> {
        Seq::new(self.server@.len(), |i: int| self.server@[i].id)
    }

    /// The ids of all nodes: drones first, then clients, then servers.
    pub open spec fn ids(&self) -> Seq<NodeId> {
        self.drone_ids() + self.client_ids() + self.server_ids()
    }

    /// The set of ids that belong to a declared node.
    pub open spec fn declared(&self) -> Set<NodeId> {
        self.ids().to_set()
    }

    /// How many nodes the topology declares, over all three roles.
    pub open spec fn count(&self) -> nat {
        self.ids().len()
    }

    /// No id is declared twice, neither within a role nor across roles.
    pub open spec fn distinct(&self) -> bool {
        self.ids().no_duplicates()
    }

    /// The ids of all declared nodes, in the order of [`Config::ids`].
    pub fn node_ids(&self) -> (ids: Vec<NodeId>)
        ensures
            ids@ == self.ids(),
    {
        let mut ids: Vec<NodeId> = Vec::new();
        let mut i: usize = 0;
        while i < self.drone.len()
            invariant
                i <= self.drone@.len(),
                ids@ == self.drone_ids().take(i as int),
            decreases self.drone@.len() - i,
        {
            ids.push(self.drone[i].id);
            i = i + 1;
        }
        let mut j: usize = 0;
        while j < self.client.len()
            invariant
                j <= self.client@.len(),
                ids@ == self.drone_ids() + self.client_ids().take(j as int),
            decreases self.client@.len() - j,
        {
            ids.push(self.client[j].id);
            j = j + 1;
        }
        let mut k: usize = 0;
        while k < self.server.len()
            invariant
                k <= self.server@.len(),
                ids@ == self.drone_ids() + self.client_ids() + self.server_ids().take(k as int),
            decreases self.server@.len() - k,
        {
            ids.push(self.server[k].id);
            k = k + 1;
        }
        ids
    }

    /// Whether every node has an id of its own. Assembling a topology asks
    /// for this.
    pub fn has_unique_ids(&self) -> (unique: bool)
        ensures
            unique == self.distinct(),
    {
        let ids = self.node_ids();
        let mut seen: HashSet<NodeId> = HashSet::new();
        let mut i: usize = 0;
        while i < ids.len()
            invariant
                i <= ids@.len(),
                ids@ == self.ids(),
                seen@ == ids@.take(i as int).to_set(),
                ids@.take(i as int).no_duplicates(),
            decreases ids@.len() - i,
        {
            let id = ids[i];
            if !seen.insert(id) {
                proof {
                    let j = choose|j: int| 0 <= j < i && ids@.take(i as int)[j] == id;
                    assert(ids@[j] == ids@[i as int]);
                }
                return false;
            }
            proof {
                lemma_prefix_set_step(ids@, i as int);
            }
            i = i + 1;
        }
        proof {
            assert(ids@.take(i as int) =~= ids@);
        }
        true
    }
}

} // verus!
