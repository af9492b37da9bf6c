//! The drone: its state, the dispatch of a packet and the event loop's
//! transition.

pub mod channels;
pub mod command_handler;
pub mod flood_handler;
pub mod guarantees;
pub mod model;
pub mod packet_handler;
pub mod utils;

use crate::controller::{views, Action, DroneCommand};
use crate::drone::model::DroneView;
use crate::drop_rate::{DropRate, DRAW_RANGE};
use crate::network::NodeId;
use crate::packet::{Packet, PacketType};
use std::collections::{HashMap, HashSet};
use vstd::prelude::*;

verus! {

/// Where a node stands in its life. It never goes back.
#[derive(Clone, Copy, Debug, PartialEq, Eq)]
pub enum Phase {
    /// Commands and packets are served, commands first.
    Active,
    /// A crash was ordered: commands are no longer read, and the packets that
    /// are still queued are served as by a crashed node.
    Draining,
    /// Nothing is served any more.
    Terminated,
}

/// What the event loop hands to the node after one wait.
pub enum Event<C> {
    /// The command channel gave a command.
    Command(DroneCommand<C>),
    /// The packet channel gave a packet.
    Packet(Packet),
    /// The channel waited on gave nothing and never will: it is
    /// disconnected and empty.
    Disconnected,
}

/// A drone. `C` is the handle of the channel that leads to a neighbor.
pub struct RustyDrone<C> {
    id: NodeId,
    /// Per neighbor, the channel on which packets are sent to it.
    packet_send: HashMap<NodeId, C>,
    /// Packet drop rate.
    pdr: DropRate,
    /// The flood requests received at least once, each under the key of its
    /// flood id and initiator. Nothing is ever taken out.
    received_floods: HashSet<u128>,
    phase: Phase,
}

/// The key under which a flood is recorded. Two floods have the same key only
/// if they have the same id and the same initiator.
pub open spec fn flood_key(flood_id: u64, initiator_id: NodeId) -> u128 {
    (flood_id * 256 + initiator_id) as u128
}

impl<C> View for RustyDrone<C> {
    type V = DroneView<C>;

    closed spec fn view(&self) -> DroneView<C> {
        DroneView {
            id: self.id,
            packet_send: self.packet_send@,
            pdr: self.pdr,
            received_floods: Set::new(
                |flood: (u64, NodeId)| self.received_floods@.contains(flood_key(flood.0, flood.1)),
            ),
            phase: self.phase,
        }
    }
}

impl<C> RustyDrone<C> {
    /// A drone that has seen no flood and is active.
    pub fn new(id: NodeId, packet_send: HashMap<NodeId, C>, pdr: DropRate) -> (drone: Self)
        ensures
            drone@ == (DroneView {
                id,
                packet_send: packet_send@,
                pdr,
                received_floods: Set::empty(),
                phase: Phase::Active,
            }),
    {
        let drone = RustyDrone {
            id,
            packet_send,
            pdr,
            received_floods: HashSet::new(),
            phase: Phase::Active,
        };
        assert(drone@.received_floods =~= Set::empty());
        drone
    }

    pub fn id(&self) -> (id: NodeId)
        ensures
            id == self@.id,
    {
        self.id
    }

    pub fn pdr(&self) -> (pdr: DropRate)
        ensures
            pdr == self@.pdr,
    {
        self.pdr
    }

    pub fn phase(&self) -> (phase: Phase)
        ensures
            phase == self@.phase,
    {
        self.phase
    }

    /// The channel that leads to the neighbor `id`.
    pub fn sender(&self, id: NodeId) -> (sender: Option<&C>)
        ensures
            sender == if self@.has_neighbor(id) {
                Some(&self@.packet_send[id])
            } else {
                None
            },
    {
        self.packet_send.get(&id)
    }

    /// The number of neighbors.
    pub fn sender_count(&self) -> (count: usize)
        ensures
            count == self@.packet_send.dom().len(),
    {
        self.packet_send.len()
    }

    /// Hands the packet to the handler of its kind. A crashing drone leaves
    /// flood requests unanswered.
    pub fn handle_packet(&mut self, packet: &Packet, crashing: bool) -> (actions: Vec<Action>)
        requires
            packet@.pack_type is FloodRequest || packet@.can_advance(),
        ensures
            final(self)@ == old(self)@.after_packet(packet@, crashing),
            exists|draw: u32|
                draw < DRAW_RANGE && views(actions@) == #[trigger] old(self)@.handled(
                    packet@,
                    crashing,
                    draw,
                ),
    {
        if let PacketType::FloodRequest(flood) = &packet.pack_type {
            let actions = if !crashing {
                self.respond_flood_request(packet.session_id, flood)
            } else {
                Vec::new()
            };
            assert(views(actions@) =~= old(self)@.handled(packet@, crashing, 0));
            actions
        } else {
            let actions = self.respond_normal(packet, crashing);
            proof {
                let draw = choose|draw: u32|
                    draw < DRAW_RANGE && views(actions@) == #[trigger] self@.routed(
                        packet@,
                        crashing,
                        draw,
                    );
                assert(views(actions@) == old(self)@.handled(packet@, crashing, draw));
            }
            actions
        }
    }

    /// One turn of the event loop: takes what the wait gave and says what is
    /// to be done. While active, the caller waits on the command channel and
    /// the packet channel, and takes a command first where both are ready;
    /// while draining it waits on the packet channel alone; once terminated
    /// it waits no more.
    pub fn step(&mut self, event: Event<C>) -> (actions: Vec<Action>)
        requires
            event matches Event::Packet(packet) ==> packet@.pack_type is FloodRequest
                || packet@.can_advance(),
        ensures
            final(self)@ == old(self)@.after_event(event),
            exists|draw: u32|
                draw < DRAW_RANGE && views(actions@) == #[trigger] old(self)@.emitted(event, draw),
    {
        match self.phase {
            Phase::Active => match event {
                Event::Command(command) => {
                    if self.handle_commands(command) {
                        self.phase = Phase::Draining;
                    }
                    let actions: Vec<Action> = Vec::new();
                    assert(views(actions@) =~= old(self)@.emitted(event, 0));
                    actions
                },
                Event::Packet(packet) => {
                    let actions = self.handle_packet(&packet, false);
                    proof {
                        let draw = choose|draw: u32|
                            draw < DRAW_RANGE && views(actions@) == #[trigger] old(self)@.handled(
                                packet@,
                                false,
                                draw,
                            );
                        assert(views(actions@) == old(self)@.emitted(event, draw));
                    }
                    actions
                },
                Event::Disconnected => {
                    let actions: Vec<Action> = Vec::new();
                    assert(views(actions@) =~= old(self)@.emitted(event, 0));
                    actions
                },
            },
            Phase::Draining => match event {
                Event::Packet(packet) => {
                    let actions = self.handle_packet(&packet, true);
                    proof {
                        let draw = choose|draw: u32|
                            draw < DRAW_RANGE && views(actions@) == #[trigger] old(self)@.handled(
                                packet@,
                                true,
                                draw,
                            );
                        assert(views(actions@) == old(self)@.emitted(event, draw));
                    }
                    actions
                },
                Event::Disconnected => {
                    self.phase = Phase::Terminated;
                    let actions: Vec<Action> = Vec::new();
                    assert(views(actions@) =~= old(self)@.emitted(event, 0));
                    actions
                },
                Event::Command(_) => {
                    let actions: Vec<Action> = Vec::new();
                    assert(views(actions@) =~= old(self)@.emitted(event, 0));
                    actions
                },
            },
            Phase::Terminated => {
                let actions: Vec<Action> = Vec::new();
                assert(views(actions@) =~= old(self)@.emitted(event, 0));
                actions
            },
        }
    }

    /// Whether the flood was received before.
    pub fn has_received_flood(&self, flood_id: u64, initiator_id: NodeId) -> (seen: bool)
        ensures
            seen == self@.received_floods.contains((flood_id, initiator_id)),
    {
        self.received_floods.contains(&key_of(flood_id, initiator_id))
    }
}

/// Computes the key under which a flood is recorded.
pub(crate) fn key_of(flood_id: u64, initiator_id: NodeId) -> (key: u128)
    ensures
        key == flood_key(flood_id, initiator_id),
{
    flood_id as u128 * 256 + initiator_id as u128
}

/// Floods with the same key are the same flood.
pub proof fn lemma_flood_key_injective(a: (u64, NodeId), b: (u64, NodeId))
    ensures
        flood_key(a.0, a.1) == flood_key(b.0, b.1) <==> a == b,
{
}

} // verus!
