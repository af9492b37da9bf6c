//! What the simulation controller sends to a node, what a node reports to
//! it, and what a node asks of its surroundings.

use crate::drop_rate::DropRate;
use crate::network::NodeId;
use crate::packet::{Packet, PacketView};
use vstd::prelude::*;

verus! {

/// A command of the simulation controller. `C` is the handle of the channel
/// that leads to a neighbor; it is stored and handed out, never looked into.
pub enum DroneCommand<C> {
    /// Makes the node a neighbor, or replaces the channel of one.
    AddSender(NodeId, C),
    /// Takes a neighbor away.
    RemoveSender(NodeId),
    SetPacketDropRate(DropRate),
    Crash,
}

/// What a node reports to the simulation controller.
#[derive(Debug, PartialEq, Eq)]
pub enum DroneEvent {
    /// The packet was put on a neighbor's channel.
    PacketSent(Packet),
    /// The fragment fell to the packet drop rate.
    PacketDropped(Packet),
    /// The packet could not go on and must not be lost: the controller is to
    /// carry it to its destination.
    ControllerShortcut(Packet),
}

/// One thing that a node asks its surroundings to do.
#[derive(Debug, PartialEq, Eq)]
pub enum Action {
    /// Put `packet` on the channel of the neighbor `to`.
    Send { to: NodeId, packet: Packet },
    /// Report `0` to the simulation controller. The report is best effort: a
    /// controller that cannot be reached is no error.
    Notify(DroneEvent),
}

/// Mathematical model of a [`DroneEvent`].
pub enum DroneEventView {
    PacketSent(PacketView),
    PacketDropped(PacketView),
    ControllerShortcut(PacketView),
}

/// Mathematical model of an [`Action`].
pub enum ActionView {
    Send { to: NodeId, packet: PacketView },
    Notify(DroneEventView),
}

impl View for DroneEvent {
    type V = DroneEventView;

    open spec fn view(&self) -> DroneEventView {
        match *self {
            DroneEvent::PacketSent(packet) => DroneEventView::PacketSent(packet@),
            DroneEvent::PacketDropped(packet) => DroneEventView::PacketDropped(packet@),
            DroneEvent::ControllerShortcut(packet) => DroneEventView::ControllerShortcut(packet@),
        }
    }
}

impl View for Action {
    type V = ActionView;

    open spec fn view(&self) -> ActionView {
        match *self {
            Action::Send { to, packet } => ActionView::Send { to, packet: packet@ },
            Action::Notify(event) => ActionView::Notify(event@),
        }
    }
}

/// The models of a list of actions, in order.
pub open spec fn views(actions: Seq<Action>) -> Seq<ActionView> {
    Seq::new(actions.len(), |i: int| actions[i]@)
}

/// A list of actions with one more action has the models of the list and then
/// that of the action.
pub proof fn lemma_views_push(actions: Seq<Action>, action: Action)
    ensures
        views(actions.push(action)) == views(actions).push(action@),
{
    assert(views(actions.push(action)) =~= views(actions).push(action@));
}

} // verus!
