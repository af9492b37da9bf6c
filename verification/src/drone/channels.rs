//! What leaves the node: packets for neighbors and reports for the
//! simulation controller.

use crate::controller::{
    lemma_views_push, views, Action, ActionView, DroneEvent, DroneEventView,
};
use crate::drone::model::{recipients, sends};
use crate::drone::RustyDrone;
use crate::network::NodeId;
use crate::packet::Packet;
use vstd::prelude::*;

verus! {

impl<C> RustyDrone<C> {
    /// Sends the packet to the current hop of its routing header and reports
    /// it as sent. Nothing happens if the header has no current hop or that
    /// hop is no neighbor.
    pub fn send_to_next(&self, packet: Packet) -> (actions: Vec<Action>)
        ensures
            views(actions@) == self@.sent_to_next(packet@),
    {
        let mut actions: Vec<Action> = Vec::new();
        let Some(next_hop) = packet.routing_header.current_hop() else {
            assert(views(actions@) =~= self@.sent_to_next(packet@));
            return actions;
        };
        if !self.packet_send.contains_key(&next_hop) {
            assert(views(actions@) =~= self@.sent_to_next(packet@));
            return actions;
        }
        actions.push(Action::Send { to: next_hop, packet: packet.clone() });
        actions.push(Action::Notify(DroneEvent::PacketSent(packet)));
        assert(views(actions@) =~= self@.sent_to_next(packet@));
        actions
    }

    /// Hands a copy of the packet to every neighbor except the previous hop.
    pub fn flood_except(&self, previous_hop: NodeId, packet: &Packet) -> (actions: Vec<Action>)
        ensures
            views(actions@) == self@.flooded_except(previous_hop, packet@),
    {
        let mut actions: Vec<Action> = Vec::new();
        let mut bound: u16 = 0;
        assert(views(actions@) =~= sends(recipients(self@.packet_send.dom(), previous_hop, 0), packet@));
        while bound < 256
            invariant
                bound <= 256,
                views(actions@) == sends(
                    recipients(self@.packet_send.dom(), previous_hop, bound as nat),
                    packet@,
                ),
            decreases 256 - bound,
        {
            let node_id = bound as NodeId;
            let ghost before = actions@;
            let ghost lower = recipients(self@.packet_send.dom(), previous_hop, bound as nat);
            if self.packet_send.contains_key(&node_id) && node_id != previous_hop {
                actions.push(Action::Send { to: node_id, packet: packet.clone() });
                proof {
                    lemma_views_push(before, actions@.last());
                    assert(sends(lower.push(node_id), packet@) =~= sends(lower, packet@).push(
                        ActionView::Send { to: node_id, packet: packet@ },
                    ));
                }
            }
            bound = bound + 1;
        }
        actions
    }

    /// Hands the packet to the simulation controller.
    pub fn use_shortcut(&self, packet: Packet) -> (action: Action)
        ensures
            action@ == ActionView::Notify(DroneEventView::ControllerShortcut(packet@)),
    {
        Action::Notify(DroneEvent::ControllerShortcut(packet))
    }

    /// Tells the simulation controller that the packet was dropped.
    pub fn notify_dropped(&self, packet: Packet) -> (action: Action)
        ensures
            action@ == ActionView::Notify(DroneEventView::PacketDropped(packet@)),
    {
        Action::Notify(DroneEvent::PacketDropped(packet))
    }
}

} // verus!
