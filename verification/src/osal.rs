//! What depends on the operating system.

pub mod buffer_pool;
pub mod if_addr;
pub mod route;
pub mod tun;
