//! Assembly of the network: every declared node gets its channel ends and is
//! made into an executable unit by the factory of its role.

use crate::config::{lemma_prefix_set_step, Client, Config, Drone, NodeId, Server};
use crate::fabric::{create_packet_channels, find_packet_send, send_map};
use crate::node::{ClientServerCreator, DroneCreator, Runnable};
use crossbeam_channel::{Receiver, Sender};
use std::collections::HashMap;
use vstd::pervasive::unreached;
use vstd::prelude::*;

verus! {

broadcast use vstd::std_specs::hash::group_hash_axioms;

/// The unit that `nodes` keeps for `drone` is what a factory of the kind `D`
/// makes of the drone's id, the inbound end that `receivers` keeps for it, its
/// send map over `senders` and its drop rate.
pub open spec fn drone_made<P, R, U, D: DroneCreator<P, R, U>>(
    drone: Drone<R>,
    senders: Map<NodeId, Sender<P>>,
    receivers: Map<NodeId, Receiver<P>>,
    nodes: Map<NodeId, U>,
) -> bool {
    D::makes_drone(
        drone.id,
        receivers[drone.id],
        send_map(senders, drone.connected_node_ids@),
        drone.pdr,
        nodes[drone.id],
    )
}

/// The unit that `nodes` keeps for `client` is what a factory of the kind `C`
/// makes of the client's id, the inbound end that `receivers` keeps for it and
/// its send map over `senders`.
pub open spec fn client_made<P, U, C: ClientServerCreator<P, U>>(
    client: Client,
    senders: Map<NodeId, Sender<P>>,
    receivers: Map<NodeId, Receiver<P>>,
    nodes: Map<NodeId, U>,
) -> bool {
    C::makes_endpoint(
        client.id,
        receivers[client.id],
        send_map(senders, client.connected_drone_ids@),
        nodes[client.id],
    )
}

/// The unit that `nodes` keeps for `server` is what a factory of the kind `S`
/// makes of the server's id, the inbound end that `receivers` keeps for it and
/// its send map over `senders`.
pub open spec fn server_made<P, U, S: ClientServerCreator<P, U>>(
    server: Server,
    senders: Map<NodeId, Sender<P>>,
    receivers: Map<NodeId, Receiver<P>>,
    nodes: Map<NodeId, U>,
) -> bool {
    S::makes_endpoint(
        server.id,
        receivers[server.id],
        send_map(senders, server.connected_drone_ids@),
        nodes[server.id],
    )
}

/// Every node of `config` has in `nodes` a unit made by the factory of its
/// own role: the drones by `D`, the clients by `C`, the servers by `S`, each
/// from the ends that the fabric of `senders` and `receivers` holds for it.
pub open spec fn wired<
    P,
    R,
    U,
    D: DroneCreator<P, R, U>,
    C: ClientServerCreator<P, U>,
    S: ClientServerCreator<P, U>,
>(
    config: Config<R>,
    senders: Map<NodeId, Sender<P>>,
    receivers: Map<NodeId, Receiver<P>>,
    nodes: Map<NodeId, U>,
) -> bool {
    &&& forall|a: int|
        0 <= a < config.drone@.len() ==> drone_made::<P, R, U, D>(
            #[trigger] config.drone@[a],
            senders,
            receivers,
            nodes,
        )
    &&& forall|b: int|
        0 <= b < config.client@.len() ==> client_made::<P, U, C>(
            #[trigger] config.client@[b],
            senders,
            receivers,
            nodes,
        )
    &&& forall|c: int|
        0 <= c < config.server@.len() ==> server_made::<P, U, S>(
            #[trigger] config.server@[c],
            senders,
            receivers,
            nodes,
        )
}

/// Takes the channel ends of the node `id` out of the fabric: its inbound
/// end, which leaves `packet_receivers` for good, and its send map, which is
/// that of [`find_packet_send`] for its neighbours.
pub fn take_node_ends<P>(
    id: NodeId,
    connected_node_ids: &[NodeId],
    packet_senders: &HashMap<NodeId, Sender<P>>,
    packet_receivers: &mut HashMap<NodeId, Receiver<P>>,
) -> (ends: (Receiver<P>, HashMap<NodeId, Sender<P>>))
    requires
        old(packet_receivers)@.contains_key(id),
    ensures
        ends.0 == old(packet_receivers)@[id],
        final(packet_receivers)@ == old(packet_receivers)@.remove(id),
        ends.1@ == send_map(packet_senders@, connected_node_ids@),
{
    let packet_recv = match packet_receivers.remove(&id) {
        Some(packet_recv) => packet_recv,
        None => unreached(),
    };
    let packet_send = find_packet_send(connected_node_ids, packet_senders);
    (packet_recv, packet_send)
}

/// Where the nodes of each role stand among the ids of a topology.
proof fn lemma_ids_by_role<R>(config: Config<R>)
    ensures
        forall|a: int|
            0 <= a < config.drone@.len() ==> (#[trigger] config.drone@[a]).id == config.ids()[a],
        forall|b: int|
            0 <= b < config.client@.len() ==> (#[trigger] config.client@[b]).id == config.ids()[config.drone@.len()
                + b],
        forall|c: int|
            0 <= c < config.server@.len() ==> (#[trigger] config.server@[c]).id == config.ids()[config.drone@.len()
                + config.client@.len() + c],
{
}

/// In a sequence without duplicates, the element at `g` is not among those
/// before it, and taking it in extends their set by one.
proof fn lemma_next_is_new(ids: Seq<NodeId>, g: int)
    requires
        ids.no_duplicates(),
        0 <= g < ids.len(),
    ensures
        !ids.take(g).to_set().contains(ids[g]),
        ids.to_set().contains(ids[g]),
        ids.take(g + 1).to_set() == ids.take(g).to_set().insert(ids[g]),
{
    if ids.take(g).contains(ids[g]) {
        let j = choose|j: int| 0 <= j < g && ids.take(g)[j] == ids[g];
        assert(ids[j] == ids[g]);
    }
    lemma_prefix_set_step(ids, g);
}

/// Makes the units of a topology whose channel fabric is given. The drones
/// are made first, then the clients, then the servers, each by the factory of
/// its role, which is handed the node's id and what [`take_node_ends`] gives
/// for it, a drone's factory its drop rate too. The result holds under the id
/// of every declared node the unit that was made for it, and nothing else;
/// the inbound ends of the declared nodes have all left `packet_receivers`.
pub fn assemble_nodes<P, R: Copy, U: Runnable, D, C, S>(
    config: &Config<R>,
    packet_senders: &HashMap<NodeId, Sender<P>>,
    packet_receivers: &mut HashMap<NodeId, Receiver<P>>,
    drone_creator: D,
    client_creator: C,
    server_creator: S,
) -> (nodes: HashMap<NodeId, U>) where
    D: DroneCreator<P, R, U>,
    C: ClientServerCreator<P, U>,
    S: ClientServerCreator<P, U>,

    requires
        config.distinct(),
        config.declared().subset_of(old(packet_receivers)@.dom()),
    ensures
        nodes@.dom() == config.declared(),
        nodes@.len() == config.count(),
        wired::<P, R, U, D, C, S>(*config, packet_senders@, old(packet_receivers)@, nodes@),
        final(packet_receivers)@ == old(packet_receivers)@.remove_keys(config.declared()),
{
    let mut drone_creator = drone_creator;
    let mut client_creator = client_creator;
    let mut server_creator = server_creator;
    let mut nodes: HashMap<NodeId, U> = HashMap::new();
    let ghost ids = config.ids();
    let ghost drones = config.drone@.len() as int;
    let ghost clients = config.client@.len() as int;
    proof {
        lemma_ids_by_role(*config);
    }

    let mut i: usize = 0;
    while i < config.drone.len()
        invariant
            i <= config.drone@.len(),
            ids == config.ids(),
            ids.no_duplicates(),
            ids.to_set().subset_of(old(packet_receivers)@.dom()),
            forall|a: int|
                0 <= a < config.drone@.len() ==> (#[trigger] config.drone@[a]).id == ids[a],
            nodes@.dom() == ids.take(i as int).to_set(),
            packet_receivers@ == old(packet_receivers)@.remove_keys(ids.take(i as int).to_set()),
            forall|a: int|
                0 <= a < i ==> drone_made::<P, R, U, D>(
                    #[trigger] config.drone@[a],
                    packet_senders@,
                    old(packet_receivers)@,
                    nodes@,
                ),
        decreases config.drone@.len() - i,
    {
        let drone = &config.drone[i];
        proof {
            lemma_next_is_new(ids, i as int);
        }
        let (packet_recv, packet_send) = take_node_ends(
            drone.id,
            drone.connected_node_ids.as_slice(),
            packet_senders,
            packet_receivers,
        );
        let runnable = drone_creator.create_drone(drone.id, packet_recv, packet_send, drone.pdr);
        nodes.insert(drone.id, runnable);
        i = i + 1;
    }

    let mut j: usize = 0;
    while j < config.client.len()
        invariant
            j <= config.client@.len(),
            ids == config.ids(),
            drones == config.drone@.len(),
            ids.no_duplicates(),
            ids.to_set().subset_of(old(packet_receivers)@.dom()),
            forall|a: int|
                0 <= a < config.drone@.len() ==> (#[trigger] config.drone@[a]).id == ids[a],
            forall|b: int|
                0 <= b < config.client@.len() ==> (#[trigger] config.client@[b]).id == ids[drones
                    + b],
            nodes@.dom() == ids.take(drones + j).to_set(),
            packet_receivers@ == old(packet_receivers)@.remove_keys(
                ids.take(drones + j).to_set(),
            ),
            forall|a: int|
                0 <= a < config.drone@.len() ==> drone_made::<P, R, U, D>(
                    #[trigger] config.drone@[a],
                    packet_senders@,
                    old(packet_receivers)@,
                    nodes@,
                ),
            forall|b: int|
                0 <= b < j ==> client_made::<P, U, C>(
                    #[trigger] config.client@[b],
                    packet_senders@,
                    old(packet_receivers)@,
                    nodes@,
                ),
        decreases config.client@.len() - j,
    {
        let client = &config.client[j];
        proof {
            lemma_next_is_new(ids, drones + j);
        }
        let (packet_recv, packet_send) = take_node_ends(
            client.id,
            client.connected_drone_ids.as_slice(),
            packet_senders,
            packet_receivers,
        );
        let runnable = client_creator.create_client_server(client.id, packet_recv, packet_send);
        nodes.insert(client.id, runnable);
        j = j + 1;
    }

    let mut k: usize = 0;
    while k < config.server.len()
        invariant
            k <= config.server@.len(),
            ids == config.ids(),
            drones == config.drone@.len(),
            clients == config.client@.len(),
            ids.no_duplicates(),
            ids.to_set().subset_of(old(packet_receivers)@.dom()),
            forall|a: int|
                0 <= a < config.drone@.len() ==> (#[trigger] config.drone@[a]).id == ids[a],
            forall|b: int|
                0 <= b < config.client@.len() ==> (#[trigger] config.client@[b]).id == ids[drones
                    + b],
            forall|c: int|
                0 <= c < config.server@.len() ==> (#[trigger] config.server@[c]).id == ids[drones
                    + clients + c],
            nodes@.dom() == ids.take(drones + clients + k).to_set(),
            packet_receivers@ == old(packet_receivers)@.remove_keys(
                ids.take(drones + clients + k).to_set(),
            ),
            forall|a: int|
                0 <= a < config.drone@.len() ==> drone_made::<P, R, U, D>(
                    #[trigger] config.drone@[a],
                    packet_senders@,
                    old(packet_receivers)@,
                    nodes@,
                ),
            forall|b: int|
                0 <= b < config.client@.len() ==> client_made::<P, U, C>(
                    #[trigger] config.client@[b],
                    packet_senders@,
                    old(packet_receivers)@,
                    nodes@,
                ),
            forall|c: int|
                0 <= c < k ==> server_made::<P, U, S>(
                    #[trigger] config.server@[c],
                    packet_senders@,
                    old(packet_receivers)@,
                    nodes@,
                ),
        decreases config.server@.len() - k,
    {
        let server = &config.server[k];
        proof {
            lemma_next_is_new(ids, drones + clients + k);
        }
        let (packet_recv, packet_send) = take_node_ends(
            server.id,
            server.connected_drone_ids.as_slice(),
            packet_senders,
            packet_receivers,
        );
        let runnable = server_creator.create_client_server(server.id, packet_recv, packet_send);
        nodes.insert(server.id, runnable);
        k = k + 1;
    }
    proof {
        assert(ids.take(drones + clients + k) =~= ids);
        ids.unique_seq_to_set();
    }
    nodes
}

/// Assembly uses up the fabric that was made for the topology: once the units
/// are made, no inbound end is left behind.
pub proof fn lemma_assembly_drains_fabric<R, V>(config: Config<R>, receivers: Map<NodeId, V>)
    requires
        receivers.dom() == config.declared(),
    ensures
        receivers.remove_keys(config.declared()) == Map::<NodeId, V>::empty(),
{
}

/// Builds the channel fabric of `config` and makes the units of its nodes, as
/// [`assemble_nodes`] does. The result holds under the id of every declared
/// node the unit that the factory of its role made for it, from the ends of a
/// fabric that has one channel for every declared node; so it holds as many
/// units as nodes were declared.
pub fn create_topology_from_config<P, R: Copy, U: Runnable, D, C, S>(
    config: &Config<R>,
    drone_creator: D,
    client_creator: C,
    server_creator: S,
) -> (nodes: HashMap<NodeId, U>) where
    D: DroneCreator<P, R, U>,
    C: ClientServerCreator<P, U>,
    S: ClientServerCreator<P, U>,

    requires
        config.distinct(),
    ensures
        nodes@.dom() == config.declared(),
        nodes@.len() == config.count(),
        exists|senders: Map<NodeId, Sender<P>>, receivers: Map<NodeId, Receiver<P>>|
            {
                &&& senders.dom() == config.declared()
                &&& receivers.dom() == config.declared()
                &&& #[trigger] wired::<P, R, U, D, C, S>(*config, senders, receivers, nodes@)
            },
{
    let (packet_senders, mut packet_receivers) = create_packet_channels(config);
    let ghost receivers = packet_receivers@;
    let nodes = assemble_nodes(
        config,
        &packet_senders,
        &mut packet_receivers,
        drone_creator,
        client_creator,
        server_creator,
    );
    proof {
        assert(wired::<P, R, U, D, C, S>(*config, packet_senders@, receivers, nodes@));
    }
    nodes
}

} // verus!
