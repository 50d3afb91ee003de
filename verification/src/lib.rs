//! Bootstrap of a simulated network of drones, clients and servers.
//!
//! A [`Config`] declares the nodes and, for each, its neighbours. From it the
//! library builds one unbounded channel per node, hands every node its own
//! inbound end together with the outbound ends of its neighbours, and collects
//! the executable units that the caller's factories make of them.
//!
//! The library never looks into a packet, a drop rate or a unit, so it is
//! generic in all three: `P`, `R` and `U` in the signatures.

pub mod assembly;
pub mod channel;
pub mod config;
pub mod fabric;
pub mod node;

pub use crate::assembly::{assemble_nodes, create_topology_from_config, take_node_ends};
pub use crate::config::{Client, Config, Drone, NodeId, Server};
pub use crate::fabric::{create_packet_channels, find_packet_send};
pub use crate::node::{ClientServerCreator, DroneCreator, Runnable};
