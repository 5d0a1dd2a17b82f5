//! Routes through an interface.

use crate::net::IpAddr;
use crate::route::Route;
use vstd::prelude::*;

verus! {

/// A route that is kept until it is given up.
#[derive(Debug)]
pub struct ScopedRoute {
    pub if_index: u32,
    pub dest_ip: IpAddr,
}

impl ScopedRoute {
    pub fn new(if_index: u32, dest_ip: IpAddr) -> (r: ScopedRoute)
        ensures
            r.if_index == if_index,
            r.dest_ip == dest_ip,
    {
        ScopedRoute { if_index, dest_ip }
    }

    /// What to add to the kernel's routes, and to delete from them later.
    pub fn message(&self) -> (r: Route)
        ensures
            r.destination == self.dest_ip,
            r.prefix == self.dest_ip.bits(),
            r.if_index == self.if_index,
    {
        Route {
            destination: self.dest_ip,
            prefix: self.dest_ip.host_prefix_len(),
            if_index: self.if_index,
        }
    }

    /// The value of the label `ip_version`, under which a failure to delete the route is counted.
    pub fn version_label(&self) -> (r: &'static str)
        ensures
            r@ == self.dest_ip.family(),
    {
        self.dest_ip.family_label()
    }
}

} // verus!
