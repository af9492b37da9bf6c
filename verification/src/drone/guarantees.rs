//! What holds of a drone on every input, proved of its model.

use crate::controller::{ActionView, DroneCommand, DroneEventView};
use crate::drone::model::{recipients, DroneView};
use crate::drone::Event;
use crate::drop_rate::DRAW_RANGE;
use crate::network::{NodeId, Route};
use crate::packet::{NackType, PacketView, Payload};
use vstd::prelude::*;

verus! {

/// A packet at the door of the node `at`.
pub struct InFlight {
    pub at: NodeId,
    pub packet: PacketView,
}

/// The packet that the first `Send` among the actions puts on a channel, and
/// the node that the channel leads to.
pub open spec fn first_sent(actions: Seq<ActionView>) -> Option<InFlight>
    decreases actions.len(),
{
    if actions.len() == 0 {
        None
    } else {
        match actions[0] {
            ActionView::Send { to, packet } => Some(InFlight { at: to, packet }),
            ActionView::Notify(_) => first_sent(actions.drop_first()),
        }
    }
}

/// Where a packet is after as many drones as there are `draws` have handled
/// it one after the other, each with its own draw and none of them crashing,
/// in a network that holds the drones of `net` under their ids. `None` once a
/// node that is not in `net` had the packet, or a drone sent nothing.
pub open spec fn relayed<C>(
    net: Map<NodeId, DroneView<C>>,
    start: InFlight,
    draws: Seq<u32>,
) -> Option<InFlight>
    decreases draws.len(),
{
    if draws.len() == 0 {
        Some(start)
    } else {
        match relayed(net, start, draws.drop_last()) {
            Some(now) => if net.contains_key(now.at) {
                first_sent(net[now.at].routed(now.packet, false, draws.last()))
            } else {
                None
            },
            None => None,
        }
    }
}

/// The packet with the cursor of its route at `hop_index`.
pub open spec fn at_hop(packet: PacketView, hop_index: nat) -> PacketView {
    PacketView { routing_header: Route { hop_index, hops: packet.routing_header.hops }, ..packet }
}

/// Whether every hop of the packet's route from position `from` up to but
/// without position `to` is a drone of `net` that stands under its own id, has
/// the hop after it for a neighbor and a drop rate of zero.
pub open spec fn clear_road<C>(
    net: Map<NodeId, DroneView<C>>,
    hops: Seq<NodeId>,
    from: int,
    to: int,
) -> bool {
    forall|i: int|
        from <= i < to ==> {
            &&& net.contains_key(#[trigger] hops[i])
            &&& net[hops[i]].id == hops[i]
            &&& net[hops[i]].pdr.never()
            &&& net[hops[i]].has_neighbor(hops[i + 1])
        }
}

/// A drone with a drop rate of zero that is on the route, has the next hop
/// for a neighbor and is not crashing hands every packet on: the next hop
/// gets it with the cursor one hop on and nothing else changed, and it is
/// reported as sent.
pub proof fn lemma_clear_hop_forwards<C>(drone: DroneView<C>, packet: PacketView, draw: u32)
    requires
        packet.routing_header.current_hop() == Some(drone.id),
        packet.routing_header.next_hop() matches Some(next) && drone.has_neighbor(next),
        drone.pdr.never() || !packet.pack_type.droppable(),
    ensures
        drone.routed(packet, false, draw) == seq![
            ActionView::Send {
                to: packet.routing_header.next_hop().unwrap(),
                packet: packet.advanced(),
            },
            ActionView::Notify(DroneEventView::PacketSent(packet.advanced())),
        ],
{
}

/// Drop rate zero: a fragment that the drones of a route hand from one to the
/// next, from position `from` of the route on, is at position `from + k`
/// after `k` of them, with the cursor on that position and nothing else
/// changed, whatever was drawn.
pub proof fn lemma_fragment_advances<C>(
    net: Map<NodeId, DroneView<C>>,
    packet: PacketView,
    from: nat,
    draws: Seq<u32>,
)
    requires
        packet.pack_type is MsgFragment,
        from + draws.len() < packet.routing_header.hops.len(),
        clear_road(net, packet.routing_header.hops, from as int, from as int + draws.len()),
    ensures
        relayed(
            net,
            InFlight { at: packet.routing_header.hops[from as int], packet: at_hop(packet, from) },
            draws,
        ) == Some(
            InFlight {
                at: packet.routing_header.hops[from as int + draws.len()],
                packet: at_hop(packet, from + draws.len()),
            },
        ),
    decreases draws.len(),
{
    let hops = packet.routing_header.hops;
    if draws.len() > 0 {
        let before = draws.drop_last();
        lemma_fragment_advances(net, packet, from, before);
        let i = from as int + before.len();
        let now = at_hop(packet, i as nat);
        assert(net.contains_key(hops[i]));
        lemma_clear_hop_forwards(net[hops[i]], now, draws.last());
        assert(now.advanced() == at_hop(packet, (i + 1) as nat));
        let out = net[hops[i]].routed(now, false, draws.last());
        assert(first_sent(out) == Some(InFlight { at: hops[i + 1], packet: now.advanced() }));
    }
}

/// Drop rate zero: a fragment whose route has `n` hops and that its sender,
/// hop 0, has handed to hop 1 with the cursor on 1, reaches the last hop
/// through the `n - 2` drones in between. It arrives with the cursor on
/// `n - 1`, that is moved on by exactly `n - 1` from the sender's own
/// position, and with its payload and session unchanged, whatever was drawn.
pub proof fn lemma_fragment_crosses_route<C>(
    net: Map<NodeId, DroneView<C>>,
    packet: PacketView,
    draws: Seq<u32>,
)
    requires
        packet.pack_type is MsgFragment,
        packet.routing_header.hops.len() >= 2,
        packet.routing_header.hop_index == 1,
        draws.len() == packet.routing_header.hops.len() - 2,
        clear_road(net, packet.routing_header.hops, 1, packet.routing_header.hops.len() - 1),
    ensures
        relayed(net, InFlight { at: packet.routing_header.hops[1], packet }, draws) matches Some(
            arrived,
        ) && {
            &&& arrived.at == packet.routing_header.hops.last()
            &&& arrived.packet.routing_header.hop_index == packet.routing_header.hops.len() - 1
            &&& arrived.packet.routing_header.hops == packet.routing_header.hops
            &&& arrived.packet.pack_type == packet.pack_type
            &&& arrived.packet.session_id == packet.session_id
        },
{
    assert(at_hop(packet, 1) == packet);
    lemma_fragment_advances(net, packet, 1, draws);
}

/// Full drop rate: no fragment is handed on, whatever the packet, the state
/// of the drone and the draw. What leaves the drone for a neighbor is then a
/// negative acknowledgment.
pub proof fn lemma_full_rate_never_forwards<C>(
    drone: DroneView<C>,
    packet: PacketView,
    crashing: bool,
    draw: u32,
)
    requires
        drone.pdr.always(),
        draw < DRAW_RANGE,
        packet.pack_type is MsgFragment,
    ensures
        !(drone.verdict(packet, crashing, draw) is Forward),
        forall|i: int|
            0 <= i < drone.routed(packet, crashing, draw).len() ==> (#[trigger] drone.routed(
                packet,
                crashing,
                draw,
            )[i] matches ActionView::Send { packet: sent, .. } ==> sent.pack_type is Nack),
{
}

/// The draw decides nothing but the fate of a fragment that has come as far
/// as the rule of the drop rate, and nothing at all where the drop rate is
/// zero or full.
pub proof fn lemma_draw_decides_little<C>(
    drone: DroneView<C>,
    packet: PacketView,
    crashing: bool,
    one: u32,
    other: u32,
)
    requires
        one < DRAW_RANGE,
        other < DRAW_RANGE,
        !drone.takes_draw(packet, crashing) || drone.pdr.never() || drone.pdr.always(),
    ensures
        drone.routed(packet, crashing, one) == drone.routed(packet, crashing, other),
{
}

/// Full drop rate: a fragment that is addressed to the drone, could go on to
/// a neighbor and finds the drone not crashing is dropped. The drop is
/// reported, and a negative acknowledgment of type `Dropped` is made out for
/// the hop before the drone: its route are the hops up to the drone in
/// reverse, the cursor on position 1. It is sent and reported as sent if that
/// hop is a neighbor.
pub proof fn lemma_full_rate_drops<C>(drone: DroneView<C>, packet: PacketView, draw: u32)
    requires
        drone.pdr.always(),
        draw < DRAW_RANGE,
        drone.takes_draw(packet, false),
    ensures
        drone.verdict(packet, false, draw) is Drop,
        drone.routed(packet, false, draw) == seq![
            ActionView::Notify(DroneEventView::PacketDropped(packet)),
        ] + drone.sent_to_next(drone.nack_of(packet, NackType::Dropped)),
        drone.nack_of(packet, NackType::Dropped).routing_header == (Route {
            hop_index: 1,
            hops: packet.routing_header.hops.take(
                packet.routing_header.hop_index as int + 1,
            ).reverse(),
        }),
        packet.routing_header.hop_index >= 1 && drone.has_neighbor(
            packet.routing_header.hops[packet.routing_header.hop_index - 1],
        ) ==> drone.routed(packet, false, draw) == seq![
            ActionView::Notify(DroneEventView::PacketDropped(packet)),
            ActionView::Send {
                to: packet.routing_header.hops[packet.routing_header.hop_index - 1],
                packet: drone.nack_of(packet, NackType::Dropped),
            },
            ActionView::Notify(
                DroneEventView::PacketSent(drone.nack_of(packet, NackType::Dropped)),
            ),
        ],
{
    let route = packet.routing_header;
    let back = route.traversed().reverse();
    assert(back.update(0, drone.id) =~= back);
    assert(drone.nack_of(packet, NackType::Dropped).routing_header.hops =~= route.hops.take(
        route.hop_index as int + 1,
    ).reverse());
}

/// A packet whose current hop is not the drone is never handed on. A
/// fragment is answered with `UnexpectedRecipient`, naming the drone; any
/// other packet is handed to the simulation controller, with no send and no
/// negative acknowledgment. This holds whether or not the drone is crashing.
pub proof fn lemma_misdirected<C>(
    drone: DroneView<C>,
    packet: PacketView,
    crashing: bool,
    draw: u32,
)
    requires
        packet.routing_header.current_hop() != Some(drone.id),
        !(packet.pack_type is FloodRequest),
    ensures
        packet.pack_type is MsgFragment ==> drone.handled(packet, crashing, draw)
            == drone.sent_to_next(
            drone.nack_of(packet, NackType::UnexpectedRecipient(drone.id)),
        ),
        !(packet.pack_type is MsgFragment) ==> drone.handled(packet, crashing, draw) == seq![
            ActionView::Notify(DroneEventView::ControllerShortcut(packet.advanced())),
        ],
{
}

/// A packet that is addressed to the drone and whose route ends there: a
/// fragment is answered with `DestinationIsDrone`, unless the drone is
/// crashing; any other packet is let go, with no send, no negative
/// acknowledgment and no report.
pub proof fn lemma_last_hop<C>(drone: DroneView<C>, packet: PacketView, crashing: bool, draw: u32)
    requires
        packet.routing_header.current_hop() == Some(drone.id),
        packet.routing_header.next_hop() is None,
        !(packet.pack_type is FloodRequest),
    ensures
        packet.pack_type is MsgFragment && !crashing ==> drone.handled(packet, crashing, draw)
            == drone.sent_to_next(drone.nack_of(packet, NackType::DestinationIsDrone)),
        !(packet.pack_type is MsgFragment) ==> drone.handled(packet, crashing, draw)
            == Seq::<ActionView>::empty(),
{
}

/// A flood that was seen is never forgotten, whatever the drone is given.
pub proof fn lemma_floods_are_remembered<C>(
    drone: DroneView<C>,
    event: Event<C>,
    flood: (u64, NodeId),
)
    requires
        drone.received_floods.contains(flood),
    ensures
        drone.after_event(event).received_floods.contains(flood),
{
}

/// A request of a flood that was seen ends at the drone: it is answered along
/// the way it came and handed to nobody.
pub proof fn lemma_seen_flood_ends<C>(drone: DroneView<C>, packet: PacketView, draw: u32)
    requires
        packet.pack_type matches Payload::FloodRequest(request) && drone.received_floods.contains(
            (request.flood_id, request.initiator_id),
        ),
    ensures
        packet.pack_type matches Payload::FloodRequest(request) && drone.handled(
            packet,
            false,
            draw,
        ) == drone.sent_to_next(drone.response_to(packet.session_id, request)),
{
}

/// Of two requests of the same flood that an active drone gets one after the
/// other, the second ends there whatever became of the first: it is answered
/// with a flood response and handed to nobody. Only the first can have been
/// handed on.
pub proof fn lemma_second_request_ends<C>(
    drone: DroneView<C>,
    first: PacketView,
    second: PacketView,
    draw: u32,
)
    requires
        first.pack_type matches Payload::FloodRequest(a) && second.pack_type
            matches Payload::FloodRequest(b) && a.flood_id == b.flood_id && a.initiator_id
            == b.initiator_id,
    ensures
        second.pack_type matches Payload::FloodRequest(request) && drone.after_packet(
            first,
            false,
        ).handled(second, false, draw) == drone.after_packet(first, false).sent_to_next(
            drone.after_packet(first, false).response_to(second.session_id, request),
        ),
{
}

/// Removing a node that is no neighbor changes nothing.
pub proof fn lemma_remove_absent_sender<C>(drone: DroneView<C>, id: NodeId)
    requires
        !drone.has_neighbor(id),
    ensures
        drone.after_command(DroneCommand::RemoveSender(id)) == drone,
{
    assert(drone.packet_send.remove(id) =~= drone.packet_send);
}

/// Removing a neighbor leaves the others where they were, and what is sent
/// to them as it was: a packet whose current hop is another node goes out, or
/// does not, as before.
pub proof fn lemma_remove_sender_spares_others<C>(
    drone: DroneView<C>,
    id: NodeId,
    other: NodeId,
    packet: PacketView,
)
    requires
        other != id,
        packet.routing_header.current_hop() == Some(other),
    ensures
        drone.after_command(DroneCommand::RemoveSender(id)).has_neighbor(other)
            == drone.has_neighbor(other),
        drone.after_command(DroneCommand::RemoveSender(id)).sent_to_next(packet)
            == drone.sent_to_next(packet),
{
}

/// The recipients of a flooded packet are the neighbors other than the
/// excluded one, each once, in ascending order.
pub proof fn lemma_recipients(neighbors: Set<NodeId>, except: NodeId, bound: nat)
    requires
        bound <= 256,
    ensures
        forall|id: NodeId|
            #![trigger recipients(neighbors, except, bound).contains(id)]
            recipients(neighbors, except, bound).contains(id) <==> (neighbors.contains(id) && id
                != except && id < bound),
        forall|i: int, j: int|
            0 <= i < j < recipients(neighbors, except, bound).len() ==> recipients(
                neighbors,
                except,
                bound,
            )[i] < recipients(neighbors, except, bound)[j],
    decreases bound,
{
    if bound > 0 {
        lemma_recipients(neighbors, except, (bound - 1) as nat);
        let lower = recipients(neighbors, except, (bound - 1) as nat);
        let all = recipients(neighbors, except, bound);
        let top = (bound - 1) as NodeId;
        assert forall|id: NodeId| #![trigger all.contains(id)]
            all.contains(id) <==> (neighbors.contains(id) && id != except && id < bound) by {
            if neighbors.contains(top) && top != except {
                assert(all == lower.push(top));
                assert(all[all.len() - 1] == top);
                if lower.contains(id) {
                    let k = choose|k: int| 0 <= k < lower.len() && lower[k] == id;
                    assert(all[k] == id);
                }
            }
        }
        assert forall|i: int, j: int| 0 <= i < j < all.len() implies all[i] < all[j] by {
            if j == lower.len() {
                let below = lower[i];
                assert(lower.contains(below));
                assert(below < bound - 1);
                assert(all[j] == top);
            } else {
                assert(all[i] == lower[i] && all[j] == lower[j]);
            }
        }
    }
}

} // verus!
