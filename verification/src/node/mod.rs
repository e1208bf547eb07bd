//! The CANopen node: its object dictionary and its SDO server.

use vstd::prelude::*;

pub mod object;
pub mod object_dictionary;
pub mod sdo_server;

verus! {

/// The events of the network-management slave state machine. The library
/// only classifies them; driving a node through its states is left to the
/// embedding application.
#[derive(Debug, Copy, Clone, PartialEq, Eq, Structural)]
pub enum NmtSlaveEvent {
    BootUp,
    Operational,
    Stop,
    PreOperational,
    ResetApplication,
    ResetCommunication,
}

} // verus!
