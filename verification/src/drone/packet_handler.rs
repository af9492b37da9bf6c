//! The normal path: fragments, acknowledgments, negative acknowledgments and
//! flood responses.

use crate::controller::{lemma_views_push, views, Action};
use crate::drone::utils::get_fragment_index;
use crate::drone::RustyDrone;
use crate::drop_rate::DRAW_RANGE;
use crate::packet::{Nack, NackType, Packet, PacketType};
use vstd::prelude::*;

verus! {

impl<C> RustyDrone<C> {
    /// Handles a packet that is no flood request. Where the decision falls
    /// to the packet drop rate, one draw is made for it.
    pub fn respond_normal(&self, packet: &Packet, crashing: bool) -> (actions: Vec<Action>)
        requires
            packet@.can_advance(),
        ensures
            exists|draw: u32|
                draw < DRAW_RANGE && views(actions@) == #[trigger] self@.routed(
                    packet@,
                    crashing,
                    draw,
                ),
    {
        self.respond(packet, crashing, None)
    }

    /// Handles a packet that is no flood request as
    /// [`respond_normal`](Self::respond_normal) does when it happens to make
    /// the draw `draw`.
    pub fn respond_with_draw(&self, packet: &Packet, crashing: bool, draw: u32) -> (actions: Vec<
        Action,
    >)
        requires
            packet@.can_advance(),
        ensures
            views(actions@) == self@.routed(packet@, crashing, draw),
    {
        self.respond(packet, crashing, Some(draw))
    }

    /// Handles a packet that is no flood request, with the draw `given` or,
    /// where none is given and one is needed, with a draw of its own.
    fn respond(&self, packet: &Packet, crashing: bool, given: Option<u32>) -> (actions: Vec<Action>)
        requires
            packet@.can_advance(),
        ensures
            match given {
                Some(draw) => views(actions@) == self@.routed(packet@, crashing, draw),
                None => exists|draw: u32|
                    draw < DRAW_RANGE && views(actions@) == #[trigger] self@.routed(
                        packet@,
                        crashing,
                        draw,
                    ),
            },
    {
        let droppable = match packet.pack_type {
            PacketType::MsgFragment(_) => true,
            _ => false,
        };
        let routing = &packet.routing_header;
        let ghost any_draw: u32 = match given {
            Some(draw) => draw,
            None => 0,
        };

        // We received this packet, but according to the routing header, we
        // are not the current node on the path.
        let for_us = match routing.current_hop() {
            Some(hop) => hop == self.id,
            None => false,
        };
        if !for_us {
            let actions = self.nack_packet(
                packet,
                NackType::UnexpectedRecipient(self.id),
                droppable,
                true,
            );
            assert(views(actions@) == self@.routed(packet@, crashing, any_draw));
            return actions;
        }
        // We received a droppable packet as a crashed drone.
        if crashing && droppable {
            let actions = self.nack_packet(
                packet,
                NackType::ErrorInRouting(self.id),
                droppable,
                false,
            );
            assert(views(actions@) == self@.routed(packet@, crashing, any_draw));
            return actions;
        }
        match routing.next_hop() {
            None => {
                // This packet was sent to us, but drones are not valid end
                // destinations.
                let actions = self.nack_packet(
                    packet,
                    NackType::DestinationIsDrone,
                    droppable,
                    false,
                );
                assert(views(actions@) == self@.routed(packet@, crashing, any_draw));
                return actions;
            },
            Some(next) => {
                if !self.packet_send.contains_key(&next) {
                    // We do not have a connection to the next node that
                    // should receive this packet.
                    let actions = self.nack_packet(
                        packet,
                        NackType::ErrorInRouting(next),
                        droppable,
                        true,
                    );
                    assert(views(actions@) == self@.routed(packet@, crashing, any_draw));
                    return actions;
                }
            },
        }
        if !droppable {
            let actions = self.forward_packet(packet);
            assert(views(actions@) == self@.routed(packet@, crashing, any_draw));
            return actions;
        }
        let dropped = match given {
            Some(draw) => self.pdr.decide(draw),
            None => self.should_drop(),
        };
        let ghost draw: u32 = match given {
            Some(draw) => draw,
            None => choose|draw: u32| draw < DRAW_RANGE && dropped == self@.pdr.drops(draw),
        };
        if dropped {
            // Packet got dropped by packet drop rate.
            let mut actions: Vec<Action> = Vec::new();
            actions.push(self.notify_dropped(packet.clone()));
            let mut nack = self.nack_packet(packet, NackType::Dropped, droppable, false);
            let ghost first = actions@;
            let ghost rest = nack@;
            actions.append(&mut nack);
            assert(views(actions@) =~= views(first) + views(rest));
            assert(views(first) =~= seq![first[0]@]);
            assert(views(actions@) == self@.routed(packet@, crashing, draw));
            return actions;
        }
        // Forward packet to the next node in the route (one of our
        // neighbors).
        let actions = self.forward_packet(packet);
        assert(views(actions@) == self@.routed(packet@, crashing, draw));
        actions
    }

    /// Sends the packet on to the next node of its route.
    pub fn forward_packet(&self, packet: &Packet) -> (actions: Vec<Action>)
        requires
            packet@.can_advance(),
        ensures
            views(actions@) == self@.sent_to_next(packet@.advanced()),
    {
        let mut routing_header = packet.routing_header.clone();

        // Set the current hop of the route to the next node.
        routing_header.increase_hop_index();

        self.send_to_next(
            Packet {
                routing_header,
                session_id: packet.session_id,
                pack_type: packet.pack_type.clone(),
            },
        )
    }

    /// Answers a packet that cannot go on. One that may be dropped is
    /// answered with a negative acknowledgment of type `nack_type`, sent back
    /// the way the packet came. One that may not be dropped is handed to the
    /// simulation controller where `shortcuttable` allows it, and is else
    /// let go.
    pub fn nack_packet(
        &self,
        packet: &Packet,
        nack_type: NackType,
        droppable: bool,
        shortcuttable: bool,
    ) -> (actions: Vec<Action>)
        requires
            !droppable && shortcuttable ==> packet@.can_advance(),
        ensures
            views(actions@) == self@.refused(packet@, nack_type, droppable, shortcuttable),
    {
        if !droppable {
            let mut actions: Vec<Action> = Vec::new();
            if shortcuttable {
                // Packet cannot be dropped, sending through shortcut.
                let mut routing_header = packet.routing_header.clone();
                routing_header.increase_hop_index();

                let ghost none = actions@;
                actions.push(
                    self.use_shortcut(
                        Packet {
                            routing_header,
                            session_id: packet.session_id,
                            pack_type: packet.pack_type.clone(),
                        },
                    ),
                );
                proof {
                    lemma_views_push(none, actions@.last());
                }
            }
            assert(views(actions@) =~= self@.refused(packet@, nack_type, droppable, shortcuttable));
            return actions;
        }
        // Send nack to the first hop.
        self.send_to_next(
            Packet::new_nack(
                self.get_routing_back(&packet.routing_header),
                packet.session_id,
                Nack { nack_type, fragment_index: get_fragment_index(&packet.pack_type) },
            ),
        )
    }
}

} // verus!
