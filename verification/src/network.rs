//! Node identities and the source-routing header that every packet carries.

use vstd::prelude::*;

verus! {

/// Identifier of a node, unique within one simulation run.
pub type NodeId = u8;

/// What a node is; recorded beside its id in the path trace of a flood.
#[derive(Clone, Copy, Debug, PartialEq, Eq, Hash)]
pub enum NodeType {
    Client,
    Drone,
    Server,
}

/// The route of a packet: the hops fixed by its sender and a cursor into them.
#[derive(Debug, PartialEq, Eq)]
pub struct SourceRoutingHeader {
    /// Position in `hops` of the node that is to handle the packet.
    pub hop_index: usize,
    /// The whole route, from the sender to the destination.
    pub hops: Vec<NodeId>,
}

/// Mathematical model of a [`SourceRoutingHeader`].
pub struct Route {
    pub hop_index: nat,
    pub hops: Seq<NodeId>,
}

impl View for SourceRoutingHeader {
    type V = Route;

    open spec fn view(&self) -> Route {
        Route { hop_index: self.hop_index as nat, hops: self.hops@ }
    }
}

impl Route {
    /// The node that is to handle the packet, if the cursor is on the route.
    pub open spec fn current_hop(self) -> Option<NodeId> {
        if self.hop_index < self.hops.len() {
            Some(self.hops[self.hop_index as int])
        } else {
            None
        }
    }

    /// The node after the current one, if the route goes on.
    pub open spec fn next_hop(self) -> Option<NodeId> {
        if self.hop_index + 1 < self.hops.len() {
            Some(self.hops[self.hop_index as int + 1])
        } else {
            None
        }
    }

    /// The same route with the cursor moved one hop on.
    pub open spec fn advanced(self) -> Route {
        Route { hop_index: self.hop_index + 1, hops: self.hops }
    }

    /// The hops up to and including the current one; all of them when the
    /// cursor is beyond the route.
    pub open spec fn traversed(self) -> Seq<NodeId> {
        if self.hop_index < self.hops.len() {
            self.hops.take(self.hop_index as int + 1)
        } else {
            self.hops
        }
    }

    /// The route that leads from node `from` back to the sender: the
    /// traversed hops in reverse with `from` in first place, the cursor on
    /// the hop before it.
    pub open spec fn way_back(self, from: NodeId) -> Route {
        let back = self.traversed().reverse();
        Route { hop_index: 1, hops: if back.len() > 0 { back.update(0, from) } else { seq![from] } }
    }
}

impl Clone for SourceRoutingHeader {
    fn clone(&self) -> (copy: Self)
        ensures
            copy@ == self@,
    {
        SourceRoutingHeader { hop_index: self.hop_index, hops: self.hops.clone() }
    }
}

impl SourceRoutingHeader {
    /// A header over `hops` with the cursor at `hop_index`.
    pub fn new(hops: Vec<NodeId>, hop_index: usize) -> (header: Self)
        ensures
            header@ == (Route { hop_index: hop_index as nat, hops: hops@ }),
    {
        SourceRoutingHeader { hop_index, hops }
    }

    /// A header as the sender writes it when it hands the packet to the first
    /// hop after itself: the cursor is on position 1.
    pub fn with_first_hop(hops: Vec<NodeId>) -> (header: Self)
        ensures
            header@ == (Route { hop_index: 1, hops: hops@ }),
    {
        SourceRoutingHeader { hop_index: 1, hops }
    }

    /// A header without hops, as a flood request carries it.
    pub fn empty_route() -> (header: Self)
        ensures
            header@ == (Route { hop_index: 0, hops: Seq::empty() }),
    {
        SourceRoutingHeader { hop_index: 0, hops: Vec::new() }
    }

    pub fn current_hop(&self) -> (hop: Option<NodeId>)
        ensures
            hop == self@.current_hop(),
    {
        if self.hop_index < self.hops.len() {
            Some(self.hops[self.hop_index])
        } else {
            None
        }
    }

    pub fn next_hop(&self) -> (hop: Option<NodeId>)
        ensures
            hop == self@.next_hop(),
    {
        if self.hop_index < self.hops.len() && self.hop_index + 1 < self.hops.len() {
            Some(self.hops[self.hop_index + 1])
        } else {
            None
        }
    }

    /// Moves the cursor one hop on.
    pub fn increase_hop_index(&mut self)
        requires
            old(self).hop_index < usize::MAX,
        ensures
            final(self)@ == old(self)@.advanced(),
    {
        self.hop_index = self.hop_index + 1;
    }
}

} // verus!
