//! Commands of the simulation controller.

use crate::controller::DroneCommand;
use crate::drone::RustyDrone;
use vstd::prelude::*;

verus! {

impl<C> RustyDrone<C> {
    /// Carries out a command and tells whether it was the order to crash.
    /// No command is refused: adding a neighbor that is there replaces its
    /// channel, removing one that is not there changes nothing.
    pub fn handle_commands(&mut self, command: DroneCommand<C>) -> (crash: bool)
        ensures
            crash == (command is Crash),
            final(self)@ == old(self)@.after_command(command),
    {
        match command {
            DroneCommand::Crash => {
                return true;
            },
            DroneCommand::SetPacketDropRate(pdr) => {
                self.pdr = pdr;
            },
            DroneCommand::RemoveSender(node_id) => {
                self.packet_send.remove(&node_id);
            },
            DroneCommand::AddSender(node_id, sender) => {
                self.packet_send.insert(node_id, sender);
            },
        }
        false
    }
}

} // verus!
