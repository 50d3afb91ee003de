use crossbeam_channel::{unbounded, Sender, TryRecvError};
use net_topology::{
    create_packet_channels, find_packet_send, Client, Config, Drone, NodeId, Server,
};
use std::collections::HashMap;

fn three_nodes() -> Config<f32> {
    Config {
        drone: vec![Drone { id: 1, connected_node_ids: vec![2], pdr: 0.1 }],
        client: vec![Client { id: 2, connected_drone_ids: vec![1] }],
        server: vec![Server { id: 3, connected_drone_ids: vec![] }],
    }
}

fn sorted_keys<V>(map: &HashMap<NodeId, V>) -> Vec<NodeId> {
    let mut keys: Vec<NodeId> = map.keys().copied().collect();
    keys.sort();
    keys
}

#[test]
fn fabric_has_one_channel_per_declared_node() {
    let (senders, receivers) = create_packet_channels::<String, f32>(&three_nodes());
    assert_eq!(sorted_keys(&senders), vec![1, 2, 3]);
    assert_eq!(sorted_keys(&receivers), vec![1, 2, 3]);
}

#[test]
fn fabric_of_empty_topology_is_empty() {
    let config: Config<f32> = Config { drone: vec![], client: vec![], server: vec![] };
    let (senders, receivers) = create_packet_channels::<String, f32>(&config);
    assert!(senders.is_empty());
    assert!(receivers.is_empty());
}

#[test]
fn fabric_has_one_entry_for_a_repeated_id() {
    let config = Config {
        drone: vec![Drone { id: 4, connected_node_ids: vec![], pdr: 0.0 }],
        client: vec![Client { id: 4, connected_drone_ids: vec![] }],
        server: vec![Server { id: 9, connected_drone_ids: vec![] }],
    };
    let (senders, receivers) = create_packet_channels::<u32, f32>(&config);
    assert_eq!(sorted_keys(&senders), vec![4, 9]);
    assert_eq!(sorted_keys(&receivers), vec![4, 9]);
    senders[&4].send(11).unwrap();
    assert_eq!(receivers[&4].try_recv(), Ok(11));
}

#[test]
fn fabric_connects_both_ends_of_each_node() {
    let (senders, receivers) = create_packet_channels::<String, f32>(&three_nodes());
    for id in [1u8, 2, 3] {
        senders[&id].send(format!("to {}", id)).unwrap();
    }
    for id in [3u8, 1, 2] {
        assert_eq!(receivers[&id].try_recv(), Ok(format!("to {}", id)));
        assert_eq!(receivers[&id].try_recv(), Err(TryRecvError::Empty));
    }
}

#[test]
fn two_fabrics_of_one_topology_are_independent() {
    let config = three_nodes();
    let (first_senders, first_receivers) = create_packet_channels::<u32, f32>(&config);
    let (second_senders, second_receivers) = create_packet_channels::<u32, f32>(&config);
    for id in [1u8, 2, 3] {
        assert!(!first_senders[&id].same_channel(&second_senders[&id]));
        assert!(!first_receivers[&id].same_channel(&second_receivers[&id]));
        first_senders[&id].send(7).unwrap();
        assert_eq!(second_receivers[&id].try_recv(), Err(TryRecvError::Empty));
        assert_eq!(first_receivers[&id].try_recv(), Ok(7));
        second_senders[&id].send(8).unwrap();
        assert_eq!(first_receivers[&id].try_recv(), Err(TryRecvError::Empty));
        assert_eq!(second_receivers[&id].try_recv(), Ok(8));
    }
}

#[test]
fn channels_of_different_nodes_are_different() {
    let (senders, receivers) = create_packet_channels::<u32, f32>(&three_nodes());
    assert!(!senders[&1].same_channel(&senders[&2]));
    assert!(!senders[&2].same_channel(&senders[&3]));
    assert!(!senders[&1].same_channel(&senders[&3]));
    senders[&1].send(5).unwrap();
    assert_eq!(receivers[&2].try_recv(), Err(TryRecvError::Empty));
    assert_eq!(receivers[&3].try_recv(), Err(TryRecvError::Empty));
    assert_eq!(receivers[&1].try_recv(), Ok(5));
}

#[test]
fn send_map_has_the_declared_neighbors() {
    let (senders, _receivers) = create_packet_channels::<u32, f32>(&three_nodes());
    let packet_send = find_packet_send(&[2, 3], &senders);
    assert_eq!(sorted_keys(&packet_send), vec![2, 3]);
    let packet_send = find_packet_send(&[1], &senders);
    assert_eq!(sorted_keys(&packet_send), vec![1]);
}

#[test]
fn send_map_of_no_neighbors_is_empty() {
    let (senders, _receivers) = create_packet_channels::<u32, f32>(&three_nodes());
    let packet_send = find_packet_send(&[], &senders);
    assert!(packet_send.is_empty());
    let nobody: HashMap<NodeId, Sender<u32>> = HashMap::new();
    assert!(find_packet_send(&[1, 2, 3], &nobody).is_empty());
}

#[test]
fn send_map_leaves_out_an_undeclared_neighbor() {
    let (senders, _receivers) = create_packet_channels::<u32, f32>(&three_nodes());
    let packet_send = find_packet_send(&[2, 42], &senders);
    assert_eq!(packet_send.len(), 1);
    assert!(packet_send.contains_key(&2));
    assert!(!packet_send.contains_key(&42));
    assert!(find_packet_send(&[42, 0, 255], &senders).is_empty());
}

#[test]
fn send_map_has_one_entry_for_a_repeated_neighbor() {
    let (senders, _receivers) = create_packet_channels::<u32, f32>(&three_nodes());
    let packet_send = find_packet_send(&[3, 1, 3, 3, 1], &senders);
    assert_eq!(sorted_keys(&packet_send), vec![1, 3]);
}

#[test]
fn send_map_does_not_depend_on_the_order_of_neighbors() {
    let (senders, _receivers) = create_packet_channels::<u32, f32>(&three_nodes());
    let forward = find_packet_send(&[1, 2, 3], &senders);
    let backward = find_packet_send(&[3, 2, 1], &senders);
    assert_eq!(sorted_keys(&forward), sorted_keys(&backward));
    for id in [1u8, 2, 3] {
        assert!(forward[&id].same_channel(&backward[&id]));
    }
}

#[test]
fn send_map_entry_is_the_neighbors_own_end() {
    let (senders, receivers) = create_packet_channels::<u32, f32>(&three_nodes());
    let packet_send = find_packet_send(&[2, 3], &senders);
    assert!(packet_send[&2].same_channel(&senders[&2]));
    assert!(packet_send[&3].same_channel(&senders[&3]));
    assert!(!packet_send[&2].same_channel(&senders[&3]));
    packet_send[&2].send(21).unwrap();
    packet_send[&3].send(31).unwrap();
    assert_eq!(receivers[&2].try_recv(), Ok(21));
    assert_eq!(receivers[&3].try_recv(), Ok(31));
    assert_eq!(receivers[&1].try_recv(), Err(TryRecvError::Empty));
}

#[test]
fn send_map_leaves_the_senders_as_they_were() {
    let (a, _ra) = unbounded::<u32>();
    let (b, rb) = unbounded::<u32>();
    let mut senders: HashMap<NodeId, Sender<u32>> = HashMap::new();
    senders.insert(10, a);
    senders.insert(20, b);
    let packet_send = find_packet_send(&[20], &senders);
    assert_eq!(sorted_keys(&senders), vec![10, 20]);
    drop(packet_send);
    senders[&20].send(1).unwrap();
    assert_eq!(rb.try_recv(), Ok(1));
}

#[test]
fn messages_arrive_unchanged_in_the_order_sent() {
    let (senders, receivers) = create_packet_channels::<String, f32>(&three_nodes());
    let packet_send = find_packet_send(&[2], &senders);
    let sent: Vec<String> = (0..100).map(|n| format!("packet {}", n)).collect();
    for message in sent.iter() {
        packet_send[&2].send(message.clone()).unwrap();
    }
    let mut received: Vec<String> = Vec::new();
    while let Ok(message) = receivers[&2].try_recv() {
        received.push(message);
    }
    assert_eq!(received, sent);
}

#[test]
fn inbound_end_reports_the_end_once_every_sender_is_gone() {
    let (senders, receivers) = create_packet_channels::<u32, f32>(&three_nodes());
    let packet_send = find_packet_send(&[1], &senders);
    packet_send[&1].send(3).unwrap();
    drop(senders);
    assert_eq!(receivers[&1].try_recv(), Ok(3));
    assert_eq!(receivers[&1].try_recv(), Err(TryRecvError::Empty));
    drop(packet_send);
    assert_eq!(receivers[&1].try_recv(), Err(TryRecvError::Disconnected));
}
