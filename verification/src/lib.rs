//! The decision-making core of a peer-to-peer VPN: packets, addresses, routes, control messages
//! and the state machines that keep a link to a peer alive. Every function states what it does in
//! a contract; sockets, devices, timers and tasks live in the program around this library.

pub mod buffer_pool;
pub mod connection;
pub mod error;
pub mod net;
pub mod osal;
pub mod peer;
pub mod proto;
pub mod relay;
pub mod route;
pub mod text;
pub mod tun;
