//! Keeping one connection to a peer alive.

pub mod actor;
pub mod connect;
pub mod iroh;
pub mod peer;
