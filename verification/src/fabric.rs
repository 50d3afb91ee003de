//! The channel fabric: one channel per declared node, and for each node the
//! outbound ends that it may send on.

use crate::config::{lemma_prefix_set_step, Config, NodeId};
use crossbeam_channel::{unbounded, Receiver, Sender};
use std::collections::HashMap;
use vstd::prelude::*;

verus! {

broadcast use vstd::std_specs::hash::group_hash_axioms;

/// The send map of a node: the entries of `senders` whose key is one of
/// `neighbors`.
pub open spec fn send_map<S>(senders: Map<NodeId, S>, neighbors: Seq<NodeId>) -> Map<NodeId, S> {
    senders.restrict(neighbors.to_set())
}

/// Makes one unbounded channel for every declared node. The first map holds
/// the outbound ends and the second the inbound ends, each under the id of
/// the node that the channel leads to; neither map has any other key.
pub fn create_packet_channels<P, R>(config: &Config<R>) -> (fabric: (
    HashMap<NodeId, Sender<P>>,
    HashMap<NodeId, Receiver<P>>,
))
    ensures
        fabric.0@.dom() == config.declared(),
        fabric.1@.dom() == config.declared(),
{
    let mut packet_senders: HashMap<NodeId, Sender<P>> = HashMap::new();
    let mut packet_receivers: HashMap<NodeId, Receiver<P>> = HashMap::new();
    let ids = config.node_ids();
    let mut i: usize = 0;
    while i < ids.len()
        invariant
            i <= ids@.len(),
            packet_senders@.dom() == ids@.take(i as int).to_set(),
            packet_receivers@.dom() == ids@.take(i as int).to_set(),
        decreases ids@.len() - i,
    {
        let (snd, rcv) = unbounded();
        packet_receivers.insert(ids[i], rcv);
        packet_senders.insert(ids[i], snd);
        proof {
            lemma_prefix_set_step(ids@, i as int);
        }
        i = i + 1;
    }
    proof {
        assert(ids@.take(i as int) =~= ids@);
    }
    (packet_senders, packet_receivers)
}

/// Builds the send map of a node with the neighbours `connected_node_ids`:
/// the outbound end of every neighbour that `packet_senders` knows, under
/// that neighbour's id. A neighbour without an entry there is left out, and
/// one that is named twice gets one entry.
pub fn find_packet_send<P>(
    connected_node_ids: &[NodeId],
    packet_senders: &HashMap<NodeId, Sender<P>>,
) -> (packet_send: HashMap<NodeId, Sender<P>>)
    ensures
        packet_send@ == send_map(packet_senders@, connected_node_ids@),
{
    let mut packet_send: HashMap<NodeId, Sender<P>> = HashMap::with_capacity(
        connected_node_ids.len(),
    );
    let mut i: usize = 0;
    while i < connected_node_ids.len()
        invariant
            i <= connected_node_ids@.len(),
            packet_send@ == send_map(packet_senders@, connected_node_ids@.take(i as int)),
        decreases connected_node_ids@.len() - i,
    {
        let neighbor_id = connected_node_ids[i];
        if let Some(snd) = packet_senders.get(&neighbor_id) {
            packet_send.insert(neighbor_id, snd.clone());
        }
        proof {
            lemma_prefix_set_step(connected_node_ids@, i as int);
        }
        i = i + 1;
    }
    proof {
        assert(connected_node_ids@.take(i as int) =~= connected_node_ids@);
    }
    packet_send
}

/// With the outbound ends of a topology's fabric, the send map of a node
/// holds an entry for an id exactly if the node names it as a neighbour and
/// the topology declares it, and that entry is the end that the fabric keeps
/// under the id. A neighbour that is no declared node has no entry.
pub proof fn lemma_send_map_reaches_declared_neighbors<R, S>(
    config: Config<R>,
    senders: Map<NodeId, S>,
    neighbors: Seq<NodeId>,
)
    requires
        senders.dom() == config.declared(),
    ensures
        send_map(senders, neighbors).dom() == neighbors.to_set().intersect(config.declared()),
        forall|id: NodeId| #[trigger]
            send_map(senders, neighbors).contains_key(id) ==> send_map(senders, neighbors)[id]
                == senders[id],
{
}

} // verus!
