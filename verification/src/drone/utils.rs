//! Small computations that the handlers share.

use crate::drone::{key_of, lemma_flood_key_injective, RustyDrone};
use crate::drop_rate::{draw_below, DRAW_RANGE};
use crate::network::{NodeId, SourceRoutingHeader};
use crate::packet::{FloodRequest, PacketType, DEFAULT_FRAGMENT_INDEX};
use vstd::prelude::*;

verus! {

impl<C> RustyDrone<C> {
    /// Decides by one draw whether a fragment falls to the packet drop rate.
    /// Whatever is drawn, a rate of zero drops nothing and a full rate drops
    /// everything.
    pub fn should_drop(&self) -> (dropped: bool)
        ensures
            exists|draw: u32| draw < DRAW_RANGE && dropped == self@.pdr.drops(draw),
    {
        let draw = draw_below(DRAW_RANGE);
        let dropped = self.pdr.decide(draw);
        assert(draw < DRAW_RANGE && dropped == self@.pdr.drops(draw));
        dropped
    }

    /// Records the flood request as received and tells whether it was
    /// received before.
    pub fn already_received_flood(&mut self, flood: &FloodRequest) -> (seen: bool)
        ensures
            seen == old(self)@.received_floods.contains((flood.flood_id, flood.initiator_id)),
            final(self)@ == old(self)@.recording(flood@),
    {
        let key = key_of(flood.flood_id, flood.initiator_id);
        let fresh = self.received_floods.insert(key);
        proof {
            assert forall|other: (u64, NodeId)|
                final(self)@.received_floods.contains(other) <==> old(self)@.recording(
                    flood@,
                ).received_floods.contains(other) by {
                lemma_flood_key_injective(other, (flood.flood_id, flood.initiator_id));
            }
            assert(final(self)@.received_floods =~= old(self)@.recording(flood@).received_floods);
        }
        !fresh
    }

    /// The route on which an answer goes back to the sender of a packet with
    /// the header `routing`: the hops after this node are cut off, the rest
    /// is reversed, and this node stands first.
    pub fn get_routing_back(&self, routing: &SourceRoutingHeader) -> (back: SourceRoutingHeader)
        ensures
            back@ == routing@.way_back(self@.id),
    {
        let len = routing.hops.len();
        let last: usize = if len == 0 {
            0
        } else if routing.hop_index < len {
            routing.hop_index
        } else {
            len - 1
        };
        let mut hops: Vec<NodeId> = Vec::new();
        hops.push(self.id);
        let mut i: usize = last;
        while i > 0
            invariant
                i <= last,
                len == routing.hops.len(),
                len == 0 ==> last == 0,
                len > 0 ==> last < len,
                hops.len() == 1 + (last - i),
                hops[0] == self.id,
                forall|j: int| 1 <= j < hops.len() ==> hops[j] == routing.hops[last - j],
            decreases i,
        {
            i = i - 1;
            hops.push(routing.hops[i]);
        }
        let back = SourceRoutingHeader { hop_index: 1, hops };
        assert(back@.hops =~= routing@.way_back(self@.id).hops);
        back
    }
}

/// The fragment index of a fragment; for any other payload the default.
pub fn get_fragment_index(packet_type: &PacketType) -> (index: u64)
    ensures
        index == packet_type@.fragment_index(),
{
    match packet_type {
        PacketType::MsgFragment(fragment) => fragment.fragment_index,
        _ => DEFAULT_FRAGMENT_INDEX,
    }
}

} // verus!
