//! The first version of the control messages.

use vstd::prelude::*;

verus! {

/// A network that a peer can be reached at.
#[derive(Clone, Debug, PartialEq)]
pub struct HostAddress {
    /// The network, as `address/prefix length`.
    pub peer_network: String,
    /// The peer's signature of the network.
    pub peer_network_signature: Vec<u8>,
}

/// Tells a peer the addresses of the sender.
#[derive(Clone, Debug, PartialEq)]
pub struct Advertise {
    pub own_addresses: Vec<HostAddress>,
}

/// What a peer is asked to do.
#[derive(Clone, Debug, PartialEq)]
pub enum Command {
    Advertise(Advertise),
}

#[derive(Clone, Debug, PartialEq)]
pub struct ControlRequest {
    pub command: Option<Command>,
}

/// An error code and a message.
#[derive(Clone, Debug, PartialEq)]
pub struct Status {
    pub code: i32,
    pub message: Option<String>,
}

#[derive(Clone, Debug, PartialEq)]
pub struct ControlResponse {
    pub status: Option<Status>,
}

} // verus!
