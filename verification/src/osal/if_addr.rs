//! Addresses of an interface.

use crate::net::IpAddr;
use vstd::prelude::*;

verus! {

/// An address that is kept attached to an interface until it is given up.
#[derive(Debug)]
pub struct ScopedIfAddr {
    pub if_index: u32,
    pub ip: IpAddr,
}

impl ScopedIfAddr {
    pub fn new(if_index: u32, ip: IpAddr) -> (r: ScopedIfAddr)
        ensures
            r.if_index == if_index,
            r.ip == ip,
    {
        ScopedIfAddr { if_index, ip }
    }

    /// The length of the prefix with which the address is attached: that of the address alone.
    pub fn prefix_len(ip: &IpAddr) -> (r: u8)
        ensures
            r == ip.bits(),
    {
        ip.host_prefix_len()
    }

    /// The value of the label `ip_version`, under which a failure to detach the address is counted.
    pub fn version_label(&self) -> (r: &'static str)
        ensures
            r@ == self.ip.family(),
    {
        self.ip.family_label()
    }
}

} // verus!
