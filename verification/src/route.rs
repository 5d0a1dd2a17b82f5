//! Routes to peers in the system routing table.

use crate::error::{self, ExtractedErrorCode, IoFailure, Label};
use crate::net::IpAddr;
use vstd::prelude::*;

verus! {

/// An entry of the routing table: packets to the destination go out through the interface.
#[derive(Clone, Copy, Debug, PartialEq, Eq, Structural)]
pub struct Route {
    pub destination: IpAddr,
    pub prefix: u8,
    pub if_index: u32,
}

/// A change of the routing table.
#[derive(Clone, Copy, Debug, PartialEq, Eq, Structural)]
pub enum RouteChange {
    Add(Route),
    Delete(Route),
}

/// How a gauge changes.
#[derive(Clone, Copy, Debug)]
pub struct GaugeStep {
    pub name: &'static str,
    /// The value of the label `ip`.
    pub ip: &'static str,
    /// Whether it goes up by one or down by one.
    pub up: bool,
}

impl RouteChange {
    /// The route that is added or deleted.
    pub open spec fn of(self) -> Route {
        match self {
            RouteChange::Add(route) => route,
            RouteChange::Delete(route) => route,
        }
    }

    /// The labels under which a failure to make the change in the background is counted.
    pub fn cleanup_error_labels(&self, failure: &IoFailure) -> (r: Vec<Label>)
        ensures
            r@.len() == 3,
            r@[0].is("ERROR_CODE"@, error::code_name(error::kind_code(failure.kind))),
            r@[1].is("ERROR_KIND"@, error::kind_name(failure.kind)),
            r@[2].is("ip"@, self.of().destination.family()),
    {
        let route = match self {
            RouteChange::Add(route) => route,
            RouteChange::Delete(route) => route,
        };
        ExtractedErrorCode::from_io(failure).labels_with("ip", route.destination.family_label())
    }

    /// Whether this is how a change ends, given what the system said to it.
    pub open spec fn ends(
        self,
        made: Result<(), IoFailure>,
        r: Result<GaugeStep, IoFailure>,
    ) -> bool {
        match made {
            Err(failure) => r == Err::<GaugeStep, IoFailure>(failure),
            Ok(_) => {
                &&& r is Ok
                &&& r->Ok_0.name@ == (if self is Add {
                    "p2p_vpn_route_add"@
                } else {
                    "p2p_vpn_route_route_active"@
                })
                &&& r->Ok_0.ip@ == self.of().destination.family()
                &&& r->Ok_0.up == (self is Add)
            },
        }
    }

    /// Ends a change, given what the system said to it: the result is a success exactly if the change
    /// was made, and else the error. A change that was made is recorded in a gauge.
    pub fn finish(&self, made: Result<(), IoFailure>) -> (r: Result<GaugeStep, IoFailure>)
        ensures
            self.ends(made, r),
            match made {
                Err(failure) => r == Err::<GaugeStep, IoFailure>(failure),
                Ok(_) => r is Ok && match *self {
                    RouteChange::Add(route) => {
                        &&& r->Ok_0.name@ == "p2p_vpn_route_add"@
                        &&& r->Ok_0.ip@ == route.destination.family()
                        &&& r->Ok_0.up
                    },
                    RouteChange::Delete(route) => {
                        &&& r->Ok_0.name@ == "p2p_vpn_route_route_active"@
                        &&& r->Ok_0.ip@ == route.destination.family()
                        &&& !r->Ok_0.up
                    },
                },
            },
    {
        match made {
            Err(failure) => Err(failure),
            Ok(()) => match self {
                RouteChange::Add(route) => Ok(
                    GaugeStep {
                        name: "p2p_vpn_route_add",
                        ip: route.destination.family_label(),
                        up: true,
                    },
                ),
                RouteChange::Delete(route) => Ok(
                    GaugeStep {
                        name: "p2p_vpn_route_route_active",
                        ip: route.destination.family_label(),
                        up: false,
                    },
                ),
            },
        }
    }
}

/// Registers routes to an interface.
#[derive(Clone, Copy, Debug)]
pub struct NetRouteHandle {
    /// Tells apart the open handles to the routing table.
    pub handle: usize,
    /// The interface that routes are registered to.
    pub if_index: u32,
}

impl NetRouteHandle {
    pub fn from_handle(handle: usize, if_index: u32) -> (r: NetRouteHandle)
        ensures
            r.handle == handle,
            r.if_index == if_index,
    {
        NetRouteHandle { handle, if_index }
    }

    /// The route to a single address, through the interface.
    pub open spec fn entry(self, dest_ip: IpAddr) -> Route {
        Route { destination: dest_ip, prefix: dest_ip.bits() as u8, if_index: self.if_index }
    }

    /// What inserting a route to an address asks the system for.
    pub open spec fn adds(self, dest_ip: IpAddr) -> RouteChange {
        RouteChange::Add(self.entry(dest_ip))
    }

    /// What removing the route to an address asks the system for.
    pub open spec fn deletes(self, dest_ip: IpAddr) -> RouteChange {
        RouteChange::Delete(self.entry(dest_ip))
    }

    /// Registers a route to the interface: gives what to ask the system for.
    pub fn insert(&self, dest_ip: IpAddr) -> (r: RouteChange)
        ensures
            r == self.adds(dest_ip),
    {
        RouteChange::Add(self.route_entry(dest_ip))
    }

    /// Unregisters a route to the interface: gives what to ask the system for.
    pub fn remove(&self, dest_ip: IpAddr) -> (r: RouteChange)
        ensures
            r == self.deletes(dest_ip),
    {
        RouteChange::Delete(self.route_entry(dest_ip))
    }

    /// Gives the route to a single address.
    pub fn route_entry(&self, dest_ip: IpAddr) -> (r: Route)
        ensures
            r == self.entry(dest_ip),
    {
        Route { destination: dest_ip, prefix: dest_ip.host_prefix_len(), if_index: self.if_index }
    }
}

/// Two instances are equal if their handles are the same (there should be just one in the whole
/// process anyway).
impl PartialEq for NetRouteHandle {
    fn eq(&self, other: &NetRouteHandle) -> (r: bool) {
        self.handle == other.handle
    }
}

impl vstd::std_specs::cmp::PartialEqSpecImpl for NetRouteHandle {
    open spec fn obeys_eq_spec() -> bool {
        true
    }

    open spec fn eq_spec(&self, other: &NetRouteHandle) -> bool {
        self.handle == other.handle
    }
}

impl Eq for NetRouteHandle {

}

/// A route that is kept until it is given up.
#[derive(Debug, PartialEq, Eq)]
pub struct ScopedRoute {
    handle: NetRouteHandle,
    dest_ip: IpAddr,
}

impl ScopedRoute {
    /// What the route was registered with.
    pub closed spec fn registered_with(self) -> NetRouteHandle {
        self.handle
    }

    /// The address that the route leads to.
    pub closed spec fn leads_to(self) -> IpAddr {
        self.dest_ip
    }

    /// Keeps a route, given how its registration went. If it failed, the route is given up at once:
    /// what to ask the system for is to delete it, and the result is the error, whatever comes of
    /// that.
    pub fn new(
        handle: NetRouteHandle,
        dest_ip: IpAddr,
        registered: Result<(), IoFailure>,
    ) -> (r: Result<ScopedRoute, (RouteChange, IoFailure)>)
        ensures
            match registered {
                Ok(_) => r is Ok && r->Ok_0.registered_with() == handle && r->Ok_0.leads_to()
                    == dest_ip,
                Err(failure) => r == Err::<ScopedRoute, (RouteChange, IoFailure)>(
                    (handle.deletes(dest_ip), failure),
                ),
            },
    {
        let route = ScopedRoute { handle, dest_ip };
        match registered {
            Ok(()) => Ok(route),
            Err(failure) => Err((route.drop_async(), failure)),
        }
    }

    /// Gives the address that the route leads to.
    pub fn dest_ip(&self) -> (r: &IpAddr)
        ensures
            *r == self.leads_to(),
    {
        &self.dest_ip
    }

    /// Gives up the route: what to ask the system for is to delete the route that was added.
    pub fn drop_async(self) -> (r: RouteChange)
        ensures
            r == self.registered_with().deletes(self.leads_to()),
    {
        self.handle.remove(self.dest_ip)
    }
}

/// A change succeeds exactly if the system made it, and else fails with the system's error. One that
/// was made is recorded once, by the version of the address: up for a route that was added, and down for
/// one that was deleted.
pub proof fn changes_end_as_the_system_says(
    change: RouteChange,
    made: Result<(), IoFailure>,
    r: Result<GaugeStep, IoFailure>,
)
    requires
        change.ends(made, r),
    ensures
        r is Ok <==> made is Ok,
        r is Err ==> r->Err_0 == made->Err_0,
        r is Ok ==> (r->Ok_0.up <==> change is Add),
        r is Ok && change is Add ==> r->Ok_0.name@ == "p2p_vpn_route_add"@ && r->Ok_0.ip@ == (
        if change->Add_0.destination is V4 {
            "v4"@
        } else {
            "v6"@
        }),
        r is Ok && change is Delete ==> r->Ok_0.name@ == "p2p_vpn_route_route_active"@
            && r->Ok_0.ip@ == (if change->Delete_0.destination is V4 {
            "v4"@
        } else {
            "v6"@
        }),
{
}

/// Removing a route asks for exactly the route that inserting it asked for: the one to the address
/// alone, with all its bits as the prefix, through the interface of the handle.
pub proof fn removing_asks_for_what_inserting_asked_for(handle: NetRouteHandle, dest_ip: IpAddr)
    ensures
        handle.adds(dest_ip) is Add,
        handle.deletes(dest_ip) is Delete,
        handle.deletes(dest_ip)->Delete_0 == handle.adds(dest_ip)->Add_0,
        handle.adds(dest_ip)->Add_0.destination == dest_ip,
        handle.adds(dest_ip)->Add_0.prefix == (if dest_ip is V4 {
            32u8
        } else {
            128
        }),
        handle.adds(dest_ip)->Add_0.if_index == handle.if_index,
{
}

} // verus!
