//! Packets and their payloads.

use crate::network::{NodeId, NodeType, Route, SourceRoutingHeader};
use vstd::prelude::*;
use vstd::utf8::encode_utf8;

verus! {

/// Number of data bytes that one fragment holds.
pub const FRAGMENT_DSIZE: usize = 128;

/// Fragment index written into a negative acknowledgment of a packet that
/// is no fragment.
pub const DEFAULT_FRAGMENT_INDEX: u64 = 1;

/// One piece of an application message: the only payload that may be dropped.
#[derive(Clone, Copy, Debug, PartialEq, Eq)]
pub struct Fragment {
    pub fragment_index: u64,
    pub total_n_fragments: u64,
    /// Number of bytes of `data` that are in use.
    pub length: u8,
    pub data: [u8; 128],
}

/// Acknowledgment of one fragment.
#[derive(Clone, Copy, Debug, PartialEq, Eq)]
pub struct Ack {
    pub fragment_index: u64,
}

/// Why a fragment did not get through.
#[derive(Clone, Copy, Debug, PartialEq, Eq)]
pub enum NackType {
    /// The named node is not a neighbor of the node that was to forward to it,
    /// or the named node is crashing.
    ErrorInRouting(NodeId),
    /// The route ends at a drone.
    DestinationIsDrone,
    /// The fragment fell to the packet drop rate.
    Dropped,
    /// The named node got a packet whose current hop is another node.
    UnexpectedRecipient(NodeId),
}

/// Negative acknowledgment of one fragment.
#[derive(Clone, Copy, Debug, PartialEq, Eq)]
pub struct Nack {
    pub fragment_index: u64,
    pub nack_type: NackType,
}

/// Request of a topology discovery; it is handed from node to node and
/// collects the path it took.
#[derive(Debug, PartialEq, Eq)]
pub struct FloodRequest {
    pub flood_id: u64,
    pub initiator_id: NodeId,
    pub path_trace: Vec<(NodeId, NodeType)>,
}

/// Answer to a flood request, with the path that the request took.
#[derive(Debug, PartialEq, Eq)]
pub struct FloodResponse {
    pub flood_id: u64,
    pub path_trace: Vec<(NodeId, NodeType)>,
}

/// The payload of a packet.
#[derive(Debug, PartialEq, Eq)]
pub enum PacketType {
    MsgFragment(Fragment),
    Ack(Ack),
    Nack(Nack),
    FloodRequest(FloodRequest),
    FloodResponse(FloodResponse),
}

/// What travels between nodes.
#[derive(Debug, PartialEq, Eq)]
pub struct Packet {
    pub routing_header: SourceRoutingHeader,
    /// Correlates the packets of one exchange; never interpreted here.
    pub session_id: u64,
    pub pack_type: PacketType,
}

/// Mathematical model of a [`FloodRequest`].
pub struct FloodRequestView {
    pub flood_id: u64,
    pub initiator_id: NodeId,
    pub path_trace: Seq<(NodeId, NodeType)>,
}

/// Mathematical model of a [`FloodResponse`].
pub struct FloodResponseView {
    pub flood_id: u64,
    pub path_trace: Seq<(NodeId, NodeType)>,
}

/// Mathematical model of a [`PacketType`].
pub enum Payload {
    MsgFragment(Fragment),
    Ack(Ack),
    Nack(Nack),
    FloodRequest(FloodRequestView),
    FloodResponse(FloodResponseView),
}

/// Mathematical model of a [`Packet`].
pub struct PacketView {
    pub routing_header: Route,
    pub session_id: u64,
    pub pack_type: Payload,
}

impl View for FloodRequest {
    type V = FloodRequestView;

    open spec fn view(&self) -> FloodRequestView {
        FloodRequestView {
            flood_id: self.flood_id,
            initiator_id: self.initiator_id,
            path_trace: self.path_trace@,
        }
    }
}

impl View for FloodResponse {
    type V = FloodResponseView;

    open spec fn view(&self) -> FloodResponseView {
        FloodResponseView { flood_id: self.flood_id, path_trace: self.path_trace@ }
    }
}

impl View for PacketType {
    type V = Payload;

    open spec fn view(&self) -> Payload {
        match *self {
            PacketType::MsgFragment(fragment) => Payload::MsgFragment(fragment),
            PacketType::Ack(ack) => Payload::Ack(ack),
            PacketType::Nack(nack) => Payload::Nack(nack),
            PacketType::FloodRequest(request) => Payload::FloodRequest(request@),
            PacketType::FloodResponse(response) => Payload::FloodResponse(response@),
        }
    }
}

impl View for Packet {
    type V = PacketView;

    open spec fn view(&self) -> PacketView {
        PacketView {
            routing_header: self.routing_header@,
            session_id: self.session_id,
            pack_type: self.pack_type@,
        }
    }
}

impl Payload {
    /// Only fragments may be dropped; every other payload has to arrive.
    pub open spec fn droppable(self) -> bool {
        self is MsgFragment
    }

    /// The fragment index that a negative acknowledgment of this payload
    /// carries.
    pub open spec fn fragment_index(self) -> u64 {
        match self {
            Payload::MsgFragment(fragment) => fragment.fragment_index,
            _ => DEFAULT_FRAGMENT_INDEX,
        }
    }
}

impl PacketView {
    /// Whether the cursor of the route can move one hop on without leaving
    /// the range of the machine's integers.
    pub open spec fn can_advance(self) -> bool {
        self.routing_header.hop_index < usize::MAX
    }

    /// The same packet with the cursor of its route moved one hop on.
    pub open spec fn advanced(self) -> PacketView {
        PacketView { routing_header: self.routing_header.advanced(), ..self }
    }
}

/// A copy of a path trace.
pub fn clone_trace(trace: &Vec<(NodeId, NodeType)>) -> (copy: Vec<(NodeId, NodeType)>)
    ensures
        copy@ == trace@,
{
    let mut copy: Vec<(NodeId, NodeType)> = Vec::new();
    let mut i: usize = 0;
    while i < trace.len()
        invariant
            i <= trace.len(),
            copy@ == trace@.take(i as int),
        decreases trace.len() - i,
    {
        copy.push(trace[i]);
        i = i + 1;
        assert(trace@.take(i as int) =~= trace@.take(i - 1).push(trace@[i - 1]));
    }
    assert(trace@.take(i as int) =~= trace@);
    copy
}

impl Clone for FloodRequest {
    fn clone(&self) -> (copy: Self)
        ensures
            copy@ == self@,
    {
        FloodRequest {
            flood_id: self.flood_id,
            initiator_id: self.initiator_id,
            path_trace: clone_trace(&self.path_trace),
        }
    }
}

impl Clone for FloodResponse {
    fn clone(&self) -> (copy: Self)
        ensures
            copy@ == self@,
    {
        FloodResponse { flood_id: self.flood_id, path_trace: clone_trace(&self.path_trace) }
    }
}

impl Clone for PacketType {
    fn clone(&self) -> (copy: Self)
        ensures
            copy@ == self@,
    {
        match self {
            PacketType::MsgFragment(fragment) => PacketType::MsgFragment(*fragment),
            PacketType::Ack(ack) => PacketType::Ack(*ack),
            PacketType::Nack(nack) => PacketType::Nack(*nack),
            PacketType::FloodRequest(request) => PacketType::FloodRequest(request.clone()),
            PacketType::FloodResponse(response) => PacketType::FloodResponse(response.clone()),
        }
    }
}

impl Clone for Packet {
    fn clone(&self) -> (copy: Self)
        ensures
            copy@ == self@,
    {
        Packet {
            routing_header: self.routing_header.clone(),
            session_id: self.session_id,
            pack_type: self.pack_type.clone(),
        }
    }
}

/// The data of a fragment made from `bytes`: the first 128 of them, and
/// zeroes after them where there are fewer.
pub open spec fn fragment_data(bytes: Seq<u8>) -> Seq<u8> {
    Seq::new(128, |i: int| if i < bytes.len() { bytes[i] } else { 0u8 })
}

impl Fragment {
    /// A fragment that holds the bytes of `raw_data`, as many as fit.
    pub fn from_string(fragment_index: u64, total_n_fragments: u64, raw_data: String) -> (fragment:
        Self)
        ensures
            fragment.fragment_index == fragment_index,
            fragment.total_n_fragments == total_n_fragments,
            fragment.length == if encode_utf8(raw_data@).len() < 128 {
                encode_utf8(raw_data@).len()
            } else {
                128
            },
            fragment.data@ == fragment_data(encode_utf8(raw_data@)),
    {
        let bytes = raw_data.as_str().as_bytes();
        let length: usize = if bytes.len() < FRAGMENT_DSIZE {
            bytes.len()
        } else {
            FRAGMENT_DSIZE
        };
        let mut data = [0u8;128];
        let mut i: usize = 0;
        while i < length
            invariant
                i <= length <= 128,
                length <= bytes@.len(),
                forall|j: int| 0 <= j < i ==> data@[j] == bytes@[j],
                forall|j: int| i <= j < 128 ==> data@[j] == 0u8,
            decreases length - i,
        {
            data[i] = bytes[i];
            i = i + 1;
        }
        assert(data@ =~= fragment_data(encode_utf8(raw_data@)));
        Fragment { fragment_index, total_n_fragments, length: length as u8, data }
    }

    /// A fragment whose data are the first `length` bytes of `data`.
    pub fn new(fragment_index: u64, total_n_fragments: u64, data: [u8; 128], length: u8) -> (fragment:
        Self)
        ensures
            fragment == (Fragment { fragment_index, total_n_fragments, length, data }),
    {
        Fragment { fragment_index, total_n_fragments, length, data }
    }
}

impl Packet {
    pub fn new_fragment(
        routing_header: SourceRoutingHeader,
        session_id: u64,
        fragment: Fragment,
    ) -> (packet: Self)
        ensures
            packet@ == (PacketView {
                routing_header: routing_header@,
                session_id,
                pack_type: Payload::MsgFragment(fragment),
            }),
    {
        Packet { routing_header, session_id, pack_type: PacketType::MsgFragment(fragment) }
    }

    pub fn new_ack(routing_header: SourceRoutingHeader, session_id: u64, fragment_index: u64) -> (packet:
        Self)
        ensures
            packet@ == (PacketView {
                routing_header: routing_header@,
                session_id,
                pack_type: Payload::Ack(Ack { fragment_index }),
            }),
    {
        Packet { routing_header, session_id, pack_type: PacketType::Ack(Ack { fragment_index }) }
    }

    pub fn new_nack(routing_header: SourceRoutingHeader, session_id: u64, nack: Nack) -> (packet:
        Self)
        ensures
            packet@ == (PacketView {
                routing_header: routing_header@,
                session_id,
                pack_type: Payload::Nack(nack),
            }),
    {
        Packet { routing_header, session_id, pack_type: PacketType::Nack(nack) }
    }

    pub fn new_flood_request(
        routing_header: SourceRoutingHeader,
        session_id: u64,
        flood_request: FloodRequest,
    ) -> (packet: Self)
        ensures
            packet@ == (PacketView {
                routing_header: routing_header@,
                session_id,
                pack_type: Payload::FloodRequest(flood_request@),
            }),
    {
        Packet { routing_header, session_id, pack_type: PacketType::FloodRequest(flood_request) }
    }

    pub fn new_flood_response(
        routing_header: SourceRoutingHeader,
        session_id: u64,
        flood_response: FloodResponse,
    ) -> (packet: Self)
        ensures
            packet@ == (PacketView {
                routing_header: routing_header@,
                session_id,
                pack_type: Payload::FloodResponse(flood_response@),
            }),
    {
        Packet { routing_header, session_id, pack_type: PacketType::FloodResponse(flood_response) }
    }
}

} // verus!
