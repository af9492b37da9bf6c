//! Packets as the trials of the drone use them.

use crate::network::{NodeId, Route, SourceRoutingHeader};
use crate::packet::{fragment_data, Fragment, Nack, NackType, Packet, PacketView, Payload};
use vstd::prelude::*;
use vstd::slice::slice_to_vec;
use vstd::utf8::encode_utf8;

verus! {

/// The first of one empty fragment, on the route `routing_vector`, as its
/// sender hands it to the first hop.
pub fn new_test_fragment_packet(routing_vector: &[NodeId], session_id: u64) -> (packet: Packet)
    ensures
        packet@.routing_header == (Route { hop_index: 1, hops: routing_vector@ }),
        packet@.session_id == session_id,
        packet@.pack_type matches Payload::MsgFragment(fragment) && {
            &&& fragment.fragment_index == 0
            &&& fragment.total_n_fragments == 1
            &&& fragment.length == 0
            &&& fragment.data@ == fragment_data(Seq::empty())
        },
{
    let fragment = Fragment::from_string(0, 1, String::new());
    assert(encode_utf8(Seq::<char>::empty()) =~= Seq::<u8>::empty());
    Packet::new_fragment(
        SourceRoutingHeader::with_first_hop(slice_to_vec(routing_vector)),
        session_id,
        fragment,
    )
}

/// A negative acknowledgment of fragment 0, on the route `hops` with the
/// cursor at `hop_index`.
pub fn new_test_nack(hops: &[NodeId], nack_type: NackType, session_id: u64, hop_index: usize) -> (packet:
    Packet)
    ensures
        packet@ == (PacketView {
            routing_header: Route { hop_index: hop_index as nat, hops: hops@ },
            session_id,
            pack_type: Payload::Nack(Nack { fragment_index: 0, nack_type }),
        }),
{
    Packet::new_nack(
        SourceRoutingHeader::new(slice_to_vec(hops), hop_index),
        session_id,
        Nack { fragment_index: 0, nack_type },
    )
}

/// The packet as the next hop gets it: the cursor one hop on, nothing else
/// changed.
pub fn new_forwarded(packet: &Packet) -> (forwarded: Packet)
    requires
        packet@.can_advance(),
    ensures
        forwarded@ == packet@.advanced(),
{
    let mut packet = packet.clone();
    packet.routing_header.increase_hop_index();
    packet
}

} // verus!
