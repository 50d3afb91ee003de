//! The executable units of the network and the factories that make them.
//!
//! Both are the caller's: the library calls a factory once for every declared
//! node of its role and keeps what comes back, without looking inside.

use crate::config::NodeId;
use crossbeam_channel::{Receiver, Sender};
use std::collections::HashMap;
use vstd::prelude::*;

verus! {

/// A node that is ready to run. `run` is the one way to set it going; it
/// returns when the node's life ends. A unit can be moved to a thread of its
/// own.
pub trait Runnable: Send {
    fn run(&mut self);
}

/// A boxed unit runs as the unit in the box does, so that units of many
/// kinds can be kept together as `Box<dyn Runnable>`.
impl<T: Runnable + ?Sized> Runnable for Box<T> {
    fn run(&mut self) {
        (**self).run()
    }
}

/// Makes the units of the forwarding nodes. `P` is the type of the packets,
/// `R` that of the drop rate and `U` that of the units.
pub trait DroneCreator<P, R, U> {
    /// Whether `unit` is something that this kind of factory may make of the
    /// drone `id` with the inbound end `packet_recv`, the send map
    /// `packet_send` and the drop rate `pdr`. Each kind of factory says this
    /// for itself; one that says nothing promises nothing.
    open spec fn makes_drone(
        id: NodeId,
        packet_recv: Receiver<P>,
        packet_send: Map<NodeId, Sender<P>>,
        pdr: R,
        unit: U,
    ) -> bool {
        true
    }

    /// Makes the drone `id`, which reads from `packet_recv`, may send on the
    /// ends in `packet_send` and drops packets at the rate `pdr`.
    fn create_drone(
        &mut self,
        id: NodeId,
        packet_recv: Receiver<P>,
        packet_send: HashMap<NodeId, Sender<P>>,
        pdr: R,
    ) -> (unit: U)
        ensures
            Self::makes_drone(id, packet_recv, packet_send@, pdr, unit),
    ;
}

/// Makes the units of one kind of endpoint, clients or servers. `P` is the
/// type of the packets and `U` that of the units.
pub trait ClientServerCreator<P, U> {
    /// Whether `unit` is something that this kind of factory may make of the
    /// endpoint `id` with the inbound end `packet_recv` and the send map
    /// `packet_send`. Each kind of factory says this for itself; one that
    /// says nothing promises nothing.
    open spec fn makes_endpoint(
        id: NodeId,
        packet_recv: Receiver<P>,
        packet_send: Map<NodeId, Sender<P>>,
        unit: U,
    ) -> bool {
        true
    }

    /// Makes the endpoint `id`, which reads from `packet_recv` and may send on
    /// the ends in `packet_send`.
    fn create_client_server(
        &mut self,
        id: NodeId,
        packet_recv: Receiver<P>,
        packet_send: HashMap<NodeId, Sender<P>>,
    ) -> (unit: U)
        ensures
            Self::makes_endpoint(id, packet_recv, packet_send@, unit),
    ;
}

} // verus!
