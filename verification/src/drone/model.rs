//! Mathematical model of a drone: its state as plain values, and what it
//! does with a command, a packet and an event as functions of that state.

use crate::controller::{ActionView, DroneCommand, DroneEventView};
use crate::drone::{Event, Phase};
use crate::drop_rate::DropRate;
use crate::network::{NodeId, NodeType, Route};
use crate::packet::{FloodRequestView, FloodResponseView, Nack, NackType, PacketView, Payload};
use vstd::prelude::*;

verus! {

/// What the node decides on a packet of the normal path.
pub enum Verdict {
    /// Answer with a negative acknowledgment of this type.
    Refuse(NackType),
    /// Hand the packet to the simulation controller.
    Shortcut,
    /// Let the packet go without a trace.
    Discard,
    /// Drop the fragment and say so.
    Drop,
    /// Hand the packet to the next hop.
    Forward,
}

/// Mathematical model of a [`RustyDrone`](crate::drone::RustyDrone).
pub struct DroneView<C> {
    pub id: NodeId,
    /// The neighbors, each with the channel that leads to it.
    pub packet_send: Map<NodeId, C>,
    pub pdr: DropRate,
    /// The floods seen so far, each as its id and the id of its initiator.
    pub received_floods: Set<(u64, NodeId)>,
    pub phase: Phase,
}

/// The node ids of a path trace, in order.
pub open spec fn trace_ids(trace: Seq<(NodeId, NodeType)>) -> Seq<NodeId> {
    trace.map_values(|entry: (NodeId, NodeType)| entry.0)
}

/// The route of a flood response: the trace backwards, and then the
/// initiator where the trace does not begin with it. The cursor is on the
/// node before the one that answers.
pub open spec fn response_route(trace: Seq<(NodeId, NodeType)>, initiator_id: NodeId) -> Route {
    let back = trace_ids(trace).reverse();
    Route {
        hop_index: 1,
        hops: if back.len() > 0 && back.last() == initiator_id {
            back
        } else {
            back.push(initiator_id)
        },
    }
}

/// The members of `neighbors` other than `except` among the ids below
/// `bound`, in ascending order.
pub open spec fn recipients(neighbors: Set<NodeId>, except: NodeId, bound: nat) -> Seq<NodeId>
    decreases bound,
{
    if bound == 0 {
        Seq::empty()
    } else {
        let id = (bound - 1) as NodeId;
        let lower = recipients(neighbors, except, (bound - 1) as nat);
        if neighbors.contains(id) && id != except {
            lower.push(id)
        } else {
            lower
        }
    }
}

/// One copy of `packet` for each of `to`, in order.
pub open spec fn sends(to: Seq<NodeId>, packet: PacketView) -> Seq<ActionView> {
    to.map_values(|id: NodeId| ActionView::Send { to: id, packet })
}

impl<C> DroneView<C> {
    pub open spec fn has_neighbor(self, id: NodeId) -> bool {
        self.packet_send.contains_key(id)
    }

    /// The packet goes to the current hop of its route and is reported as
    /// sent, if that hop is a neighbor; else nothing happens.
    pub open spec fn sent_to_next(self, packet: PacketView) -> Seq<ActionView> {
        match packet.routing_header.current_hop() {
            Some(next) => if self.has_neighbor(next) {
                seq![
                    ActionView::Send { to: next, packet },
                    ActionView::Notify(DroneEventView::PacketSent(packet)),
                ]
            } else {
                Seq::empty()
            },
            None => Seq::empty(),
        }
    }

    /// One copy of the packet to every neighbor but `previous_hop`, in
    /// ascending order of the neighbors' ids.
    pub open spec fn flooded_except(self, previous_hop: NodeId, packet: PacketView) -> Seq<
        ActionView,
    > {
        sends(recipients(self.packet_send.dom(), previous_hop, 256), packet)
    }

    /// The packet is handed to the simulation controller, its cursor one hop
    /// on.
    pub open spec fn shortcut(self, packet: PacketView) -> Seq<ActionView> {
        seq![ActionView::Notify(DroneEventView::ControllerShortcut(packet.advanced()))]
    }

    /// The negative acknowledgment of `packet`: it goes back along the hops
    /// taken so far and names the fragment.
    pub open spec fn nack_of(self, packet: PacketView, nack_type: NackType) -> PacketView {
        PacketView {
            routing_header: packet.routing_header.way_back(self.id),
            session_id: packet.session_id,
            pack_type: Payload::Nack(
                Nack { fragment_index: packet.pack_type.fragment_index(), nack_type },
            ),
        }
    }

    /// What becomes of a packet that cannot go on: a droppable one is
    /// answered with a negative acknowledgment, another one takes the
    /// shortcut where that is allowed and is else let go.
    pub open spec fn refused(
        self,
        packet: PacketView,
        nack_type: NackType,
        droppable: bool,
        shortcuttable: bool,
    ) -> Seq<ActionView> {
        if droppable {
            self.sent_to_next(self.nack_of(packet, nack_type))
        } else if shortcuttable {
            self.shortcut(packet)
        } else {
            Seq::empty()
        }
    }

    /// The decision on a packet of the normal path. The first rule that
    /// applies decides.
    pub open spec fn verdict(self, packet: PacketView, crashing: bool, draw: u32) -> Verdict {
        let route = packet.routing_header;
        let droppable = packet.pack_type.droppable();
        if route.current_hop() != Some(self.id) {
            if droppable {
                Verdict::Refuse(NackType::UnexpectedRecipient(self.id))
            } else {
                Verdict::Shortcut
            }
        } else if crashing && droppable {
            Verdict::Refuse(NackType::ErrorInRouting(self.id))
        } else {
            match route.next_hop() {
                None => if droppable {
                    Verdict::Refuse(NackType::DestinationIsDrone)
                } else {
                    Verdict::Discard
                },
                Some(next) => if !self.has_neighbor(next) {
                    if droppable {
                        Verdict::Refuse(NackType::ErrorInRouting(next))
                    } else {
                        Verdict::Shortcut
                    }
                } else if droppable && self.pdr.drops(draw) {
                    Verdict::Drop
                } else {
                    Verdict::Forward
                },
            }
        }
    }

    /// What the node does with a packet of the normal path.
    pub open spec fn routed(self, packet: PacketView, crashing: bool, draw: u32) -> Seq<
        ActionView,
    > {
        match self.verdict(packet, crashing, draw) {
            Verdict::Refuse(nack_type) => self.sent_to_next(self.nack_of(packet, nack_type)),
            Verdict::Shortcut => self.shortcut(packet),
            Verdict::Discard => Seq::empty(),
            Verdict::Drop => seq![ActionView::Notify(DroneEventView::PacketDropped(packet))]
                + self.sent_to_next(self.nack_of(packet, NackType::Dropped)),
            Verdict::Forward => self.sent_to_next(packet.advanced()),
        }
    }

    /// Whether the decision on the packet takes a draw: whether a fragment
    /// has come as far as the rule of the drop rate.
    pub open spec fn takes_draw(self, packet: PacketView, crashing: bool) -> bool {
        &&& packet.pack_type.droppable()
        &&& packet.routing_header.current_hop() == Some(self.id)
        &&& !crashing
        &&& packet.routing_header.next_hop() matches Some(next)
        &&& self.has_neighbor(next)
    }

    /// The node with the flood recorded as seen.
    pub open spec fn recording(self, request: FloodRequestView) -> DroneView<C> {
        DroneView {
            received_floods: self.received_floods.insert((request.flood_id, request.initiator_id)),
            ..self
        }
    }

    /// Whether a flood request ends at this node: the flood was seen before,
    /// or there is at most one neighbor, so nobody new to hand it to.
    pub open spec fn ends_flood(self, request: FloodRequestView) -> bool {
        ||| self.received_floods.contains((request.flood_id, request.initiator_id))
        ||| self.packet_send.dom().len() <= 1
    }

    /// The trace of the request with this node at its end.
    pub open spec fn extended_trace(self, request: FloodRequestView) -> Seq<(NodeId, NodeType)> {
        request.path_trace.push((self.id, NodeType::Drone))
    }

    /// The flood response with which the node ends a request.
    pub open spec fn response_to(self, session_id: u64, request: FloodRequestView) -> PacketView {
        let trace = self.extended_trace(request);
        PacketView {
            routing_header: response_route(trace, request.initiator_id),
            session_id,
            pack_type: Payload::FloodResponse(
                FloodResponseView { flood_id: request.flood_id, path_trace: trace },
            ),
        }
    }

    /// The request as the node hands it on.
    pub open spec fn request_onward(self, session_id: u64, request: FloodRequestView) -> PacketView {
        PacketView {
            routing_header: Route { hop_index: 0, hops: Seq::empty() },
            session_id,
            pack_type: Payload::FloodRequest(
                FloodRequestView { path_trace: self.extended_trace(request), ..request },
            ),
        }
    }

    /// The node that the request came from: the last of its trace, or the
    /// initiator while the trace is empty.
    pub open spec fn previous_hop(request: FloodRequestView) -> NodeId {
        if request.path_trace.len() > 0 {
            request.path_trace.last().0
        } else {
            request.initiator_id
        }
    }

    /// A request that ends here is answered along the way it came.
    pub open spec fn answered(self, session_id: u64, request: FloodRequestView) -> Seq<
        ActionView,
    > {
        self.sent_to_next(self.response_to(session_id, request))
    }

    /// A request that goes on is handed to every neighbor but the one it
    /// came from.
    pub open spec fn passed_on(self, session_id: u64, request: FloodRequestView) -> Seq<
        ActionView,
    > {
        self.flooded_except(Self::previous_hop(request), self.request_onward(session_id, request))
    }

    /// What the node does with a flood request.
    pub open spec fn flooded(self, session_id: u64, request: FloodRequestView) -> Seq<ActionView> {
        if self.ends_flood(request) {
            self.answered(session_id, request)
        } else {
            self.passed_on(session_id, request)
        }
    }

    /// The node after a packet.
    pub open spec fn after_packet(self, packet: PacketView, crashing: bool) -> DroneView<C> {
        match packet.pack_type {
            Payload::FloodRequest(request) => if crashing {
                self
            } else {
                self.recording(request)
            },
            _ => self,
        }
    }

    /// What the node does with a packet. A crashing node leaves flood
    /// requests unanswered.
    pub open spec fn handled(self, packet: PacketView, crashing: bool, draw: u32) -> Seq<
        ActionView,
    > {
        match packet.pack_type {
            Payload::FloodRequest(request) => if crashing {
                Seq::empty()
            } else {
                self.flooded(packet.session_id, request)
            },
            _ => self.routed(packet, crashing, draw),
        }
    }

    /// The node after a command. No command is refused.
    pub open spec fn after_command(self, command: DroneCommand<C>) -> DroneView<C> {
        match command {
            DroneCommand::AddSender(id, sender) => DroneView {
                packet_send: self.packet_send.insert(id, sender),
                ..self
            },
            DroneCommand::RemoveSender(id) => DroneView {
                packet_send: self.packet_send.remove(id),
                ..self
            },
            DroneCommand::SetPacketDropRate(pdr) => DroneView { pdr, ..self },
            DroneCommand::Crash => self,
        }
    }

    /// The node after one turn of the event loop.
    pub open spec fn after_event(self, event: Event<C>) -> DroneView<C> {
        match self.phase {
            Phase::Active => match event {
                Event::Command(command) => DroneView {
                    phase: if command is Crash {
                        Phase::Draining
                    } else {
                        Phase::Active
                    },
                    ..self.after_command(command)
                },
                Event::Packet(packet) => self.after_packet(packet@, false),
                Event::Disconnected => self,
            },
            Phase::Draining => match event {
                Event::Command(_) => self,
                Event::Packet(packet) => self.after_packet(packet@, true),
                Event::Disconnected => DroneView { phase: Phase::Terminated, ..self },
            },
            Phase::Terminated => self,
        }
    }

    /// What the node does in one turn of the event loop.
    pub open spec fn emitted(self, event: Event<C>, draw: u32) -> Seq<ActionView> {
        match (self.phase, event) {
            (Phase::Active, Event::Packet(packet)) => self.handled(packet@, false, draw),
            (Phase::Draining, Event::Packet(packet)) => self.handled(packet@, true, draw),
            _ => Seq::empty(),
        }
    }
}

} // verus!
