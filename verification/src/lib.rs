//! Packet-processing engine of a drone: a forwarding-only node of a
//! source-routed network.

pub mod controller;
pub mod drone;
pub mod drop_rate;
pub mod network;
pub mod packet;
pub mod testing_utils;

pub use drone::RustyDrone;
