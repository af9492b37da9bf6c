//! Flood requests: the discovery of the topology.

use crate::controller::{views, Action};
use crate::drone::model::{response_route, trace_ids};
use crate::drone::RustyDrone;
use crate::network::{NodeId, NodeType, SourceRoutingHeader};
use crate::packet::{clone_trace, FloodRequest, FloodResponse, Packet};
use vstd::prelude::*;

verus! {

impl<C> RustyDrone<C> {
    /// Handles a flood request: records it, and either answers it or hands
    /// it on to the other neighbors.
    pub fn respond_flood_request(&mut self, session_id: u64, flood: &FloodRequest) -> (actions:
        Vec<Action>)
        ensures
            final(self)@ == old(self)@.recording(flood@),
            views(actions@) == old(self)@.flooded(session_id, flood@),
    {
        let no_other_neighbours = self.packet_send.len() <= 1;

        if self.already_received_flood(flood) || no_other_neighbours {
            // Flood request is already seen or we have no one to forward it
            // to, it should be terminated.
            self.respond_old(session_id, flood)
        } else {
            // Flood request should be forwarded.
            self.respond_new(session_id, flood)
        }
    }

    /// Ends a flood request: sends a flood response back the way the request
    /// came.
    pub fn respond_old(&self, session_id: u64, request: &FloodRequest) -> (actions: Vec<Action>)
        ensures
            views(actions@) == self@.answered(session_id, request@),
    {
        let mut new_path = clone_trace(&request.path_trace);
        // Add ourselves to the path.
        new_path.push((self.id, NodeType::Drone));

        // Use reverse of the flood path as routing.
        let mut hops: Vec<NodeId> = Vec::new();
        let mut i: usize = new_path.len();
        while i > 0
            invariant
                i <= new_path.len(),
                hops.len() == new_path.len() - i,
                forall|j: int| 0 <= j < hops.len() ==> hops[j] == new_path[new_path.len() - 1 - j].0,
            decreases i,
        {
            i = i - 1;
            hops.push(new_path[i].0);
        }
        assert(hops@ =~= trace_ids(new_path@).reverse());

        // Add the request initiator to the routing path (in case they did
        // not add themselves when starting the request).
        if hops[hops.len() - 1] != request.initiator_id {
            hops.push(request.initiator_id);
        }
        assert(hops@ =~= response_route(new_path@, request.initiator_id).hops);

        // Send back flood response.
        self.send_to_next(
            Packet::new_flood_response(
                SourceRoutingHeader { hop_index: 1, hops },
                session_id,
                FloodResponse { flood_id: request.flood_id, path_trace: new_path },
            ),
        )
    }

    /// Hands a flood request on to all neighbors except the one that sent it.
    pub fn respond_new(&self, session_id: u64, flood: &FloodRequest) -> (actions: Vec<Action>)
        ensures
            views(actions@) == self@.passed_on(session_id, flood@),
    {
        // Exclude the neighbor we received the packet from in the forward.
        // Fall back on initiator id in case path_trace is empty.
        let prev_hop = if flood.path_trace.len() > 0 {
            flood.path_trace[flood.path_trace.len() - 1].0
        } else {
            flood.initiator_id
        };

        let mut new_flood = flood.clone();
        // Add ourselves to the path.
        new_flood.path_trace.push((self.id, NodeType::Drone));

        // Forward to our neighbors.
        self.flood_except(
            prev_hop,
            &Packet::new_flood_request(SourceRoutingHeader::empty_route(), session_id, new_flood),
        )
    }
}

} // verus!
