//! Talking to a peer once there is a connection to it.

use crate::connection::connect::Delay;
use crate::connection::iroh::{EndpointId, IrohConnection};
use crate::error::{self, IoFailure, Status};
use crate::net;
use crate::net::{IpAddr, IpNet};
use crate::proto::v1::{Advertise, Command, ControlRequest};
use crate::route::{NetRouteHandle, RouteChange, ScopedRoute};
use crate::tun::packet;
use crate::tun::packet::{IcmpGateway, IcmpType, InternetSlice, PacketError};
use thin_status::ErrorCode;
use validate_addr::{validate_addresses, AddressError};
use vstd::prelude::*;

pub mod conn_metrics;
pub mod validate_addr;

verus! {

/// What all peers have in common.
#[derive(Clone, Debug)]
pub struct CommonPeerConfig {
    /// The networks that addresses of peers have to belong to.
    pub allowed_networks: Vec<IpNet>,
    pub handshake_timeout: Delay,
    /// The open handle to the routing table.
    pub route_table: usize,
    /// The system index of the TUN interface for adding/removing routes.
    pub tun_if_index: u32,
    /// The local address, and the network that it is in.
    pub own_net: IpNet,
}

impl CommonPeerConfig {
    /// The networks are well-formed.
    pub open spec fn wf(self) -> bool {
        &&& self.own_net.wf()
        &&& forall|i: int|
            0 <= i < self.allowed_networks@.len() ==> (#[trigger] self.allowed_networks@[i]).wf()
    }

    /// A configuration that allows addresses of one network, and a minute for the handshake.
    pub fn new(
        route_table: usize,
        tun_if_index: u32,
        own_net: IpNet,
        allowed_network: IpNet,
    ) -> (r: CommonPeerConfig)
        requires
            own_net.wf(),
            allowed_network.wf(),
        ensures
            r.wf(),
            r.allowed_networks@ == seq![allowed_network],
            r.handshake_timeout.secs == 60,
            r.handshake_timeout.nanos == 0,
            r.route_table == route_table,
            r.tun_if_index == tun_if_index,
            r.own_net == own_net,
    {
        let mut allowed_networks: Vec<IpNet> = Vec::new();
        allowed_networks.push(allowed_network);
        CommonPeerConfig {
            allowed_networks,
            handshake_timeout: Delay { secs: 60, nanos: 0 },
            route_table,
            tun_if_index,
            own_net,
        }
    }
}

/// What it takes to talk to a peer.
#[derive(Clone, Debug)]
pub struct PeerConfig {
    pub common: CommonPeerConfig,
    pub conn: IrohConnection,
    /// What the peer is told of the local addresses.
    pub advertise: Advertise,
}

/// A peer that there is a connection to.
#[derive(Clone, Debug)]
pub struct Peer {
    config: PeerConfig,
}

/// What is to be done with a packet that is to be sent to a peer.
#[derive(Debug)]
pub enum Egress {
    /// Send it.
    Forward,
    /// It is too big: send the answer back to the address instead.
    Reply { packet: Vec<u8>, to: IpAddr, mtu: u16 },
    /// It is too big, and there is no answer to it.
    Drop { error: PacketError, mtu: u16 },
}

/// The size that a sender is told to keep to.
pub open spec fn told_mtu(mtu: usize) -> u16 {
    if mtu < 0xffff {
        mtu as u16
    } else {
        0xffff
    }
}

fn clamp_mtu(mtu: usize) -> (r: u16)
    ensures
        r == told_mtu(mtu),
        r <= mtu,
        mtu <= 0xffff ==> r == mtu,
        mtu > 0xffff ==> r == 0xffff,
{
    if mtu < 0xffff {
        mtu as u16
    } else {
        0xffff
    }
}

impl Peer {
    /// What it takes to talk to the peer.
    pub closed spec fn configured(self) -> PeerConfig {
        self.config
    }

    pub fn new(config: PeerConfig) -> (r: Peer)
        ensures
            r.configured() == config,
    {
        Peer { config }
    }

    /// The key of the peer.
    pub fn public_key(&self) -> (r: EndpointId)
        ensures
            r == self.configured().conn.remote_id,
    {
        self.config.conn.remote_id
    }

    /// Gives what answers packets on behalf of the local address.
    pub fn icmp_gateway(&self) -> (r: IcmpGateway)
        ensures
            r.own_ipv4 == (match self.configured().common.own_net.addr {
                IpAddr::V4(ip) => Some(ip),
                IpAddr::V6(_) => None,
            }),
            r.own_ipv6 == (match self.configured().common.own_net.addr {
                IpAddr::V4(_) => None,
                IpAddr::V6(ip) => Some(ip),
            }),
    {
        IcmpGateway::from_addr(self.config.common.own_net.addr)
    }

    /// Whether this is how handling a control request begins: with the addresses to register routes to,
    /// and the routes to give up.
    pub open spec fn begins(
        config: PeerConfig,
        request: ControlRequest,
        verified: Seq<Result<(), Vec<String>>>,
        routes: Seq<ScopedRoute>,
        handler: ControlHandler,
        given_up: Seq<ScopedRoute>,
    ) -> bool {
        &&& handler.handle().handle == config.common.route_table
        &&& handler.handle().if_index == config.common.tun_if_index
        &&& match request.command {
            Some(Command::Advertise(a)) => {
                &&& handler.targets() == addresses(
                    validate_addr::accepted(
                        config.common.allowed_networks@,
                        a.own_addresses@,
                        verified,
                    ),
                )
                &&& handler.routes().len() == 0
                &&& validate_addr::tell(
                    handler.errors(),
                    validate_addr::refused(a.own_addresses@, verified),
                )
                &&& given_up == routes
            },
            None => {
                &&& handler.targets().len() == 0
                &&& handler.routes() == routes
                &&& handler.errors().len() == 0
                &&& given_up.len() == 0
            },
        }
    }

    /// Decides what to do with a control request. Gives the handler of the request and the routes to
    /// give up: with the addresses that a peer advertises, all its former routes are replaced.
    ///
    /// `verified` says for each advertised address how verifying its signature went.
    pub fn handle_control_request(
        &self,
        request: &ControlRequest,
        verified: &[Result<(), Vec<String>>],
        routes: Vec<ScopedRoute>,
    ) -> (r: (ControlHandler, Vec<ScopedRoute>))
        requires
            self.configured().common.wf(),
            request.command matches Some(Command::Advertise(a)) ==> verified@.len()
                == a.own_addresses@.len(),
        ensures
            r.0.wf(),
            Self::begins(self.configured(), *request, verified@, routes@, r.0, r.1@),
            r.0.handle().handle == self.configured().common.route_table,
            r.0.handle().if_index == self.configured().common.tun_if_index,
            match request.command {
                Some(Command::Advertise(a)) => {
                    &&& r.0.targets() == addresses(
                        validate_addr::accepted(
                            self.configured().common.allowed_networks@,
                            a.own_addresses@,
                            verified@,
                        ),
                    )
                    &&& r.0.targets().len() == validate_addr::accepted(
                        self.configured().common.allowed_networks@,
                        a.own_addresses@,
                        verified@,
                    ).len()
                    &&& forall|i: int|
                        0 <= i < r.0.targets().len() ==> #[trigger] r.0.targets()[i]
                            == validate_addr::accepted(
                            self.configured().common.allowed_networks@,
                            a.own_addresses@,
                            verified@,
                        )[i].addr
                    &&& r.0.routes().len() == 0
                    &&& validate_addr::tell(
                        r.0.errors(),
                        validate_addr::refused(a.own_addresses@, verified@),
                    )
                    &&& r.1@ == routes@
                },
                None => {
                    &&& r.0.targets().len() == 0
                    &&& r.0.routes() == routes@
                    &&& r.0.errors().len() == 0
                    &&& r.1@.len() == 0
                },
            },
    {
        let common = &self.config.common;
        let handle = NetRouteHandle::from_handle(common.route_table, common.tun_if_index);
        match &request.command {
            Some(Command::Advertise(a)) => {
                let (nets, errors) = validate_addresses(
                    common.allowed_networks.as_slice(),
                    a,
                    verified,
                );
                let targets = addresses_of_all(&nets);
                (ControlHandler { handle, targets, routes: Vec::new(), errors }, routes)
            },
            None => (
                ControlHandler { handle, targets: Vec::new(), routes, errors: Vec::new() },
                Vec::new(),
            ),
        }
    }
}

/// What `egress` decides: a packet is sent unless it is larger than the largest datagram. One that is
/// larger is answered with the size to keep to.
pub open spec fn goes_out(
    gateway: IcmpGateway,
    packet: Seq<u8>,
    max_datagram_size: Option<usize>,
    r: Egress,
) -> bool {
    if max_datagram_size is Some && packet.len() > max_datagram_size->0 {
        let mtu = told_mtu(max_datagram_size->0);
        let message = IcmpType::too_big(mtu);
        match r {
            Egress::Forward => false,
            Egress::Reply { packet: reply, to, mtu: told } => {
                &&& told == mtu
                &&& gateway.generates(Seq::empty(), packet, message, Ok(to), reply@)
            },
            Egress::Drop { error, mtu: told } => {
                &&& told == mtu
                &&& gateway.generates(Seq::empty(), packet, message, Err(error), Seq::empty())
            },
        }
    } else {
        r is Forward
    }
}

/// Decides what to do with a packet that is to be sent to a peer, given the size of the largest
/// datagram that can be sent, if datagrams can be sent at all.
pub fn egress(gateway: &IcmpGateway, packet: &[u8], max_datagram_size: Option<usize>) -> (r: Egress)
    ensures
        goes_out(*gateway, packet@, max_datagram_size, r),
        r is Forward <==> max_datagram_size is None || packet@.len() <= max_datagram_size->0,
        r is Reply ==> r->Reply_mtu <= max_datagram_size->0 && (r->Reply_mtu
            == max_datagram_size->0 || r->Reply_mtu == 0xffff),
        r is Drop ==> r->Drop_mtu <= max_datagram_size->0 && (r->Drop_mtu == max_datagram_size->0
            || r->Drop_mtu == 0xffff),
{
    match max_datagram_size {
        Some(mtu) => {
            if packet.len() > mtu {
                let mtu: u16 = clamp_mtu(mtu);
                let mut reply: Vec<u8> = Vec::new();
                match gateway.generate_reply(&mut reply, packet, IcmpType::packet_too_big(mtu)) {
                    Ok(to) => Egress::Reply { packet: reply, to, mtu },
                    Err(error) => Egress::Drop { error, mtu },
                }
            } else {
                Egress::Forward
            }
        },
        None => Egress::Forward,
    }
}

/// A packet is handed on exactly if it fits in the largest datagram, or if no size is known, whatever
/// addresses the gateway has. So no packet that is handed on exceeds the largest datagram.
pub proof fn only_packets_that_fit_are_forwarded(
    gateway: IcmpGateway,
    packet: Seq<u8>,
    max_datagram_size: Option<usize>,
    r: Egress,
)
    requires
        goes_out(gateway, packet, max_datagram_size, r),
    ensures
        r is Forward <==> max_datagram_size is None || packet.len() <= max_datagram_size->0,
{
}

/// A packet that does not fit is answered if there is a local address of its version, and dropped if
/// there is none. The answer goes to the source of the packet, and it tells the size of the largest
/// datagram, or the largest size that can be told, if that is less: in the number that an ICMPv4
/// message of type 3 and code 4, or an ICMPv6 message of type 2 and code 0, ends its header with.
pub proof fn packets_that_do_not_fit_are_answered(
    gateway: IcmpGateway,
    packet: Seq<u8>,
    max_datagram_size: usize,
    addresses: InternetSlice,
    r: Egress,
)
    requires
        goes_out(gateway, packet, Some(max_datagram_size), r),
        packet.len() > max_datagram_size,
        packet::addresses_of(packet) == Ok::<Option<InternetSlice>, Seq<Seq<char>>>(
            Some(addresses),
        ),
    ensures
        addresses is Ipv4 ==> (r is Reply <==> gateway.own_ipv4 is Some),
        addresses is Ipv6 ==> (r is Reply <==> gateway.own_ipv6 is Some),
        r is Reply <==> !(r is Drop),
        r is Drop ==> r->error is NoAddress,
        r is Drop ==> r->Drop_mtu <= max_datagram_size && r->Drop_mtu <= 0xffff && (r->Drop_mtu
            == max_datagram_size || r->Drop_mtu == 0xffff),
        r is Reply ==> {
            let reply = r->packet@;
            let mtu = r->Reply_mtu;
            &&& mtu <= max_datagram_size
            &&& mtu == max_datagram_size || mtu == 0xffff
            &&& r->to == match addresses {
                InternetSlice::Ipv4 { source, .. } => IpAddr::V4(source),
                InternetSlice::Ipv6 { source, .. } => IpAddr::V6(source),
            }
            &&& match addresses {
                InternetSlice::Ipv4 { source, .. } => {
                    &&& reply[8] == 64 && reply[9] == 1 && reply[20] == 3 && reply[21] == 4
                    &&& net::be_value(reply.subrange(12, 16)) == gateway.own_ipv4->0
                    &&& net::be_value(reply.subrange(16, 20)) == source
                    &&& net::be_value(reply.subrange(24, 28)) == mtu
                    &&& packet.len() <= 64 ==> reply.skip(28) == packet
                    &&& packet.len() > 64 ==> reply.skip(28) == packet.take(64)
                },
                InternetSlice::Ipv6 { source, .. } => {
                    &&& reply[6] == 58 && reply[7] == 64 && reply[40] == 2 && reply[41] == 0
                    &&& net::be_value(reply.subrange(8, 24)) == gateway.own_ipv6->0
                    &&& net::be_value(reply.subrange(24, 40)) == source
                    &&& net::be_value(reply.subrange(44, 48)) == mtu
                    &&& packet.len() <= 64 ==> reply.skip(48) == packet
                    &&& packet.len() > 64 ==> reply.skip(48) == packet.take(64)
                },
            }
        },
{
    if r is Reply {
        assert(packet::appended(Seq::empty(), r->packet@) == r->packet@);
        if packet.len() <= 64 {
            assert(packet::quoted(packet) == packet);
        }
    }
}

/// A packet that does not fit and whose addresses are not found is dropped.
pub proof fn malformed_packets_that_do_not_fit_are_dropped(
    gateway: IcmpGateway,
    packet: Seq<u8>,
    max_datagram_size: usize,
    r: Egress,
)
    requires
        goes_out(gateway, packet, Some(max_datagram_size), r),
        packet.len() > max_datagram_size,
        !(packet::addresses_of(packet) is Ok && packet::addresses_of(packet)->Ok_0 is Some),
    ensures
        r is Drop,
        packet.len() > 0,
        packet::addresses_of(packet) is Ok <==> r->error is NoNetwork,
        packet::addresses_of(packet) is Err <==> r->error is Parse,
{
}

/// The addresses of networks.
pub open spec fn addresses(nets: Seq<IpNet>) -> Seq<IpAddr> {
    nets.map_values(|network: IpNet| network.addr)
}

fn addresses_of_all(nets: &Vec<IpNet>) -> (r: Vec<IpAddr>)
    ensures
        r@ == addresses(nets@),
{
    let mut r: Vec<IpAddr> = Vec::new();
    let mut i: usize = 0;
    while i < nets.len()
        invariant
            i <= nets.len(),
            r@ == addresses(nets@.take(i as int)),
        decreases nets.len() - i,
    {
        r.push(nets[i].addr);
        i = i + 1;
        assert(r@ == addresses(nets@.take(i as int)));
    }
    assert(nets@.take(i as int) == nets@);
    r
}

/// Handles a control request: registers routes to the addresses of the peer one by one.
#[derive(Debug)]
pub struct ControlHandler {
    handle: NetRouteHandle,
    targets: Vec<IpAddr>,
    routes: Vec<ScopedRoute>,
    errors: Vec<AddressError>,
}

/// The messages of errors, one after the other.
pub open spec fn listed(errors: Seq<AddressError>) -> Seq<char>
    decreases errors.len(),
{
    if errors.len() == 0 {
        Seq::empty()
    } else {
        let error = errors.last();
        let text = validate_addr::address_error_text(error.network@, error.cause.causes());
        if errors.len() == 1 {
            text
        } else {
            listed(errors.drop_last()) + ", "@ + text
        }
    }
}

/// The message for a peer that there are no routes to.
pub open spec fn no_routes_message(errors: Seq<AddressError>) -> Seq<char> {
    "No available routes to the peer; ["@ + listed(errors) + "]"@
}

impl ControlHandler {
    /// What routes are registered with.
    pub closed spec fn handle(self) -> NetRouteHandle {
        self.handle
    }

    /// The addresses to register routes to.
    pub closed spec fn targets(self) -> Seq<IpAddr> {
        self.targets@
    }

    /// The routes to the peer so far.
    pub closed spec fn routes(self) -> Seq<ScopedRoute> {
        self.routes@
    }

    /// The errors for advertised addresses that were not accepted.
    pub closed spec fn errors(self) -> Seq<AddressError> {
        self.errors@
    }

    /// If there are addresses to register routes to, the routes so far lead to the first of them.
    pub open spec fn wf(self) -> bool {
        self.targets().len() > 0 ==> {
            &&& self.routes().len() <= self.targets().len()
            &&& lead_to(self.routes(), self.handle(), self.targets().take(
                self.routes().len() as int,
            ))
        }
    }

    /// What follows once the next route was registered, or could not be.
    pub open spec fn goes_on(
        self,
        result: Result<(), IoFailure>,
        r: Result<ControlHandler, (Vec<ScopedRoute>, RouteChange, Status)>,
    ) -> bool {
        match result {
            Ok(_) => {
                &&& r is Ok
                &&& r->Ok_0.handle() == self.handle()
                &&& r->Ok_0.targets() == self.targets()
                &&& r->Ok_0.errors() == self.errors()
                &&& r->Ok_0.routes().len() == self.routes().len() + 1
                &&& r->Ok_0.routes().drop_last() == self.routes()
                &&& r->Ok_0.routes().last().leads_to()
                    == self.targets()[self.routes().len() as int]
                &&& r->Ok_0.routes().last().registered_with() == self.handle()
            },
            Err(failure) => {
                &&& r is Err
                &&& r->Err_0.0@ == self.routes()
                &&& r->Err_0.1 == RouteChange::Delete(
                    self.handle().entry(self.targets()[self.routes().len() as int]),
                )
                &&& r->Err_0.2.is(error::kind_code(failure.kind), failure.message@)
            },
        }
    }

    /// Whether this is how handling the request ends.
    pub open spec fn ends(self, r: (Vec<ScopedRoute>, Result<(), Status>)) -> bool {
        &&& r.0@ == self.routes()
        &&& if self.routes().len() == 0 {
            r.1 is Err && r.1->Err_0.is(
                ErrorCode::FailedPrecondition,
                no_routes_message(self.errors()),
            )
        } else {
            r.1 is Ok
        }
    }

    /// Gives the address to register a route to next; none if all are done.
    pub fn next_target(&self) -> (r: Option<IpAddr>)
        ensures
            r == (if self.routes().len() < self.targets().len() {
                Some(self.targets()[self.routes().len() as int])
            } else {
                None
            }),
    {
        if self.routes.len() < self.targets.len() {
            Some(self.targets[self.routes.len()])
        } else {
            None
        }
    }

    /// Goes on, given how registering the next route went. If it failed, handling the request has
    /// failed; the routes that were registered before stay, and what to ask the system for is to
    /// delete the one that was not.
    pub fn registered(self, result: Result<(), IoFailure>) -> (r: Result<
        ControlHandler,
        (Vec<ScopedRoute>, RouteChange, Status),
    >)
        requires
            self.wf(),
            self.routes().len() < self.targets().len(),
        ensures
            result is Ok <==> r is Ok,
            self.goes_on(result, r),
            r is Ok ==> {
                &&& r->Ok_0.wf()
                &&& r->Ok_0.handle() == self.handle()
                &&& r->Ok_0.targets() == self.targets()
                &&& r->Ok_0.errors() == self.errors()
                &&& r->Ok_0.routes().len() == self.routes().len() + 1
                &&& r->Ok_0.routes().drop_last() == self.routes()
                &&& r->Ok_0.routes().last().leads_to()
                    == self.targets()[self.routes().len() as int]
                &&& r->Ok_0.routes().last().registered_with() == self.handle()
            },
            r is Err ==> {
                &&& r->Err_0.0@ == self.routes()
                &&& r->Err_0.1 == self.handle().deletes(
                    self.targets()[self.routes().len() as int],
                )
                &&& r->Err_0.2.is(error::kind_code(result->Err_0.kind), result->Err_0.message@)
            },
    {
        let mut handler = self;
        let target = handler.targets[handler.routes.len()];
        match ScopedRoute::new(handler.handle, target, result) {
            Ok(route) => {
                handler.routes.push(route);
                assert(handler.routes().drop_last() == self.routes());
                Ok(handler)
            },
            Err((deletion, failure)) => Err(
                (handler.routes, deletion, Status::from_io(&failure)),
            ),
        }
    }

    /// Ends handling the request, after all routes were registered. Gives the routes to the peer, and
    /// an error exactly if there are none.
    pub fn finish(self) -> (r: (Vec<ScopedRoute>, Result<(), Status>))
        requires
            self.wf(),
            self.routes().len() >= self.targets().len(),
        ensures
            self.ends(r),
            r.0@ == self.routes(),
            self.targets().len() > 0 ==> lead_to(r.0@, self.handle(), self.targets()),
            self.targets().len() > 0 ==> r.0@.len() == self.targets().len() && forall|i: int|
                0 <= i < r.0@.len() ==> (#[trigger] r.0@[i]).leads_to() == self.targets()[i]
                    && r.0@[i].registered_with() == self.handle(),
            r.1 is Err <==> r.0@.len() == 0,
            r.1 is Err ==> r.1->Err_0.is(
                ErrorCode::FailedPrecondition,
                no_routes_message(self.errors()),
            ),
    {
        assert(self.targets().len() > 0 ==> self.targets().take(self.routes().len() as int)
            == self.targets());
        if self.routes.len() == 0 {
            let mut message = "No available routes to the peer; [".to_owned();
            message.append(list_errors(&self.errors).as_str());
            message.append("]");
            (self.routes, Err(Status::new(ErrorCode::FailedPrecondition, message)))
        } else {
            (self.routes, Ok(()))
        }
    }
}

fn list_errors(errors: &Vec<AddressError>) -> (r: String)
    ensures
        r@ == listed(errors@),
{
    let mut list = "".to_owned();
    let mut i: usize = 0;
    proof {
        reveal_strlit("");
    }
    while i < errors.len()
        invariant
            i <= errors.len(),
            list@ == listed(errors@.take(i as int)),
        decreases errors.len() - i,
    {
        assert(errors@.take(i + 1).drop_last() == errors@.take(i as int));
        if i > 0 {
            list.append(", ");
        }
        list.append(errors[i].message().as_str());
        i = i + 1;
    }
    assert(errors@.take(i as int) == errors@);
    list
}

/// Whether routes lead to addresses, one to each in order, and are registered with the handle.
pub open spec fn lead_to(
    routes: Seq<ScopedRoute>,
    handle: NetRouteHandle,
    targets: Seq<IpAddr>,
) -> bool {
    &&& routes.len() == targets.len()
    &&& forall|i: int|
        0 <= i < routes.len() ==> (#[trigger] routes[i]).leads_to() == targets[i]
            && routes[i].registered_with() == handle
}

/// With the addresses that a peer advertises all its former routes are given up, and routes are to be
/// registered to just the addresses of its accepted networks, in order, through the TUN interface. There
/// is an error for each address that was refused. A request without a command changes nothing.
pub proof fn advertised_addresses_replace_all_routes(
    config: PeerConfig,
    request: ControlRequest,
    verified: Seq<Result<(), Vec<String>>>,
    routes: Seq<ScopedRoute>,
    handler: ControlHandler,
    given_up: Seq<ScopedRoute>,
)
    requires
        Peer::begins(config, request, verified, routes, handler, given_up),
    ensures
        handler.handle().if_index == config.common.tun_if_index,
        request.command is None ==> given_up.len() == 0 && handler.routes() == routes
            && handler.targets().len() == 0 && handler.errors().len() == 0,
        request.command is Some ==> {
            let hosts = request.command->0->Advertise_0.own_addresses@;
            let nets = validate_addr::accepted(
                config.common.allowed_networks@,
                hosts,
                verified,
            );
            let refused = validate_addr::refused(hosts, verified);
            &&& given_up == routes
            &&& handler.routes().len() == 0
            &&& handler.targets().len() == nets.len()
            &&& forall|i: int| 0 <= i < nets.len() ==> #[trigger] handler.targets()[i] == nets[i].addr
            &&& handler.errors().len() == refused.len()
            &&& forall|i: int|
                0 <= i < refused.len() ==> (#[trigger] handler.errors()[i]).network@ == refused[i].0
                    && handler.errors()[i].cause.causes() == refused[i].1
        },
{
}

/// A peer is refused exactly if there are no routes to it, with the code `FAILED_PRECONDITION`; the
/// routes that there are stay.
pub proof fn peers_without_routes_are_refused(
    handler: ControlHandler,
    r: (Vec<ScopedRoute>, Result<(), Status>),
)
    requires
        handler.ends(r),
    ensures
        r.0@ == handler.routes(),
        r.1 is Err <==> handler.routes().len() == 0,
        r.1 is Err ==> r.1->Err_0.code == 9 && r.1->Err_0.message@
            == "No available routes to the peer; ["@ + listed(handler.errors()) + "]"@,
{
}

/// A route that was registered leads to the address that was asked for, through the interface of the
/// handler, and comes after those before it, which stay. If it was not registered, those before it
/// stay, and it is asked to be deleted; the number of the error and its message are told.
pub proof fn one_route_at_a_time(
    before: ControlHandler,
    result: Result<(), IoFailure>,
    r: Result<ControlHandler, (Vec<ScopedRoute>, RouteChange, Status)>,
)
    requires
        before.goes_on(result, r),
    ensures
        r is Ok <==> result is Ok,
        r is Ok ==> {
            let (old, new) = (before.routes(), r->Ok_0.routes());
            let last = new[new.len() - 1];
            &&& new.len() == old.len() + 1
            &&& forall|i: int| 0 <= i < old.len() ==> #[trigger] new[i] == old[i]
            &&& last.leads_to() == before.targets()[old.len() as int]
            &&& last.registered_with() == before.handle()
            &&& r->Ok_0.targets() == before.targets()
            &&& r->Ok_0.errors() == before.errors()
            &&& r->Ok_0.handle() == before.handle()
        },
        r is Err ==> {
            let target = before.targets()[before.routes().len() as int];
            &&& r->Err_0.0@ == before.routes()
            &&& r->Err_0.1 is Delete
            &&& r->Err_0.1->Delete_0.destination == target
            &&& r->Err_0.1->Delete_0.if_index == before.handle().if_index
            &&& r->Err_0.2.code == error::code_number(error::kind_code(result->Err_0.kind))
            &&& r->Err_0.2.message@ == result->Err_0.message@
        },
{
    if r is Ok {
        let (old, new) = (before.routes(), r->Ok_0.routes());
        assert forall|i: int| 0 <= i < old.len() implies #[trigger] new[i] == old[i] by {
            assert(new.drop_last()[i] == old[i]);
        }
    }
}

/// Whether handlers follow one another as routes are registered one by one, without a failure, until
/// there is one to each address.
pub open spec fn registers_all(handlers: Seq<ControlHandler>) -> bool {
    &&& handlers.len() > 0
    &&& handlers[0].routes().len() == 0
    &&& handlers.len() == handlers[0].targets().len() + 1
    &&& forall|i: int|
        0 <= i < handlers.len() - 1 ==> (#[trigger] handlers[i]).goes_on(
            Ok(()),
            Ok::<ControlHandler, (Vec<ScopedRoute>, RouteChange, Status)>(handlers[i + 1]),
        )
}

/// After all routes were registered there is exactly one to each address, in order, all of them through
/// the interface of the handler. `n` is how many were registered so far.
pub proof fn every_address_gets_its_route(handlers: Seq<ControlHandler>, n: int)
    requires
        registers_all(handlers),
        0 <= n < handlers.len(),
    ensures
        handlers[n].routes().len() == n,
        handlers[n].targets() == handlers[0].targets(),
        handlers[n].handle() == handlers[0].handle(),
        forall|i: int|
            0 <= i < n ==> (#[trigger] handlers[n].routes()[i]).leads_to()
                == handlers[0].targets()[i] && handlers[n].routes()[i].registered_with()
                == handlers[0].handle(),
    decreases n,
{
    if n > 0 {
        every_address_gets_its_route(handlers, n - 1);
        let before = handlers[n - 1];
        let r = Ok::<ControlHandler, (Vec<ScopedRoute>, RouteChange, Status)>(handlers[n]);
        assert(before.goes_on(Ok(()), r));
        one_route_at_a_time(before, Ok(()), r);
    }
}

/// Whether an address was advertised in a network whose signature was verified and that is allowed.
pub open spec fn is_proven(
    address: IpAddr,
    allowed_nets: Seq<IpNet>,
    advertise: Advertise,
    verified: Seq<Result<(), Vec<String>>>,
) -> bool {
    exists|i: int, j: int|
        {
            let host = #[trigger] advertise.own_addresses@[i];
            let network = net::net_of_text(host.peer_network@);
            &&& 0 <= i < advertise.own_addresses@.len()
            &&& verified[i] is Ok
            &&& host.peer_network_signature@.len() == 64
            &&& network is Some
            &&& network->0.addr == address
            &&& 0 <= j < allowed_nets.len()
            &&& (#[trigger] allowed_nets[j]).covers(network->0)
        }
}

/// Routes only ever lead to addresses that the peer has proven to be its own, and that are allowed.
/// `targets` are the addresses that routes are registered to after the peer has advertised its
/// addresses.
pub proof fn routes_lead_to_proven_addresses(
    allowed_nets: Seq<IpNet>,
    advertise: Advertise,
    verified: Seq<Result<(), Vec<String>>>,
    handle: NetRouteHandle,
    targets: Seq<IpAddr>,
    routes: Seq<ScopedRoute>,
)
    requires
        verified.len() == advertise.own_addresses@.len(),
        targets == addresses(
            validate_addr::accepted(allowed_nets, advertise.own_addresses@, verified),
        ),
        routes.len() <= targets.len(),
        lead_to(routes, handle, targets.take(routes.len() as int)),
    ensures
        forall|i: int|
            0 <= i < routes.len() ==> is_proven(
                (#[trigger] routes[i]).leads_to(),
                allowed_nets,
                advertise,
                verified,
            ),
{
    let hosts = advertise.own_addresses@;
    let nets = validate_addr::accepted(allowed_nets, hosts, verified);
    assert forall|i: int| 0 <= i < routes.len() implies is_proven(
        (#[trigger] routes[i]).leads_to(),
        allowed_nets,
        advertise,
        verified,
    ) by {
        let network = nets[i];
        assert(routes[i].leads_to() == network.addr);
        assert(nets.contains(network));
        validate_addr::accepted_iff_verified_and_allowed(allowed_nets, hosts, verified, network);
        let k = choose|k: int|
            {
                &&& 0 <= k < hosts.len()
                &&& net::net_of_text((#[trigger] hosts[k]).peer_network@) == Some(network)
                &&& hosts[k].peer_network_signature@.len() == 64
                &&& verified[k] is Ok
            };
        let j = choose|j: int|
            0 <= j < allowed_nets.len() && (#[trigger] allowed_nets[j]).covers(network);
        assert(hosts[k] == advertise.own_addresses@[k]);
        assert(allowed_nets[j].covers(network));
    }
}

/// The message for a peer that there are no routes to lists the messages of all errors, in order, with
/// a comma between them.
pub proof fn all_errors_are_listed(errors: Seq<AddressError>, error: AddressError)
    ensures
        no_routes_message(Seq::empty()) == "No available routes to the peer; []"@,
        no_routes_message(seq![error]) == "No available routes to the peer; ["@
            + validate_addr::address_error_text(error.network@, error.cause.causes()) + "]"@,
        errors.len() > 0 ==> no_routes_message(errors.push(error)) == no_routes_message(
            errors,
        ).drop_last() + ", "@ + validate_addr::address_error_text(
            error.network@,
            error.cause.causes(),
        ) + "]"@,
{
    reveal_strlit("No available routes to the peer; []");
    reveal_strlit("No available routes to the peer; [");
    reveal_strlit("]");
    assert(listed(Seq::empty()) == Seq::<char>::empty());
    assert(no_routes_message(Seq::empty()) == "No available routes to the peer; []"@);
    assert(errors.push(error).drop_last() == errors);
    assert(seq![error].last() == error);
    let head = "No available routes to the peer; ["@ + listed(errors);
    assert((head + "]"@).drop_last() == head);
    let text = validate_addr::address_error_text(error.network@, error.cause.causes());
    if errors.len() > 0 {
        assert("No available routes to the peer; ["@ + (listed(errors) + ", "@ + text) == head
            + ", "@ + text);
    }
}

/// Whether this is how a handshake went, from how sending and receiving went.
pub open spec fn shakes_hands<E>(
    sent: Result<(), E>,
    received: Result<(), E>,
    r: Result<(), E>,
) -> bool {
    if sent is Err {
        r == sent
    } else if received is Err {
        r == received
    } else {
        r is Ok
    }
}

/// A handshake succeeds exactly if both sending and receiving did. Its error is that of one of the two,
/// that of sending if both failed.
pub proof fn handshakes_take_both_directions<E>(
    sent: Result<(), E>,
    received: Result<(), E>,
    r: Result<(), E>,
)
    requires
        shakes_hands(sent, received, r),
    ensures
        r is Ok <==> sent is Ok && received is Ok,
        sent is Err ==> r is Err && r->Err_0 == sent->Err_0,
        sent is Ok && received is Err ==> r is Err && r->Err_0 == received->Err_0,
{
}

/// Tells how a handshake went, from how sending and receiving went, both of which are done. What
/// went wrong with sending comes first.
pub fn handshake_result<E>(sent: Result<(), E>, received: Result<(), E>) -> (r: Result<(), E>)
    ensures
        shakes_hands(sent, received, r),
        match sent {
            Err(error) => r == Err::<(), E>(error),
            Ok(_) => match received {
                Err(error) => r == Err::<(), E>(error),
                Ok(_) => r is Ok,
            },
        },
{
    match sent {
        Err(error) => Err(error),
        Ok(()) => received,
    }
}

/// Which of the tasks of a communication ended first, and how.
#[derive(Debug)]
pub enum CommunicationEnd<E> {
    /// Receiving control messages, which only ends with an error.
    Control(E),
    /// Sending packets.
    Send,
    /// Receiving packets, which only ends with an error.
    Receive(E),
}

/// Whether this is how a communication ended.
pub open spec fn ends_with<E>(end: CommunicationEnd<E>, r: Result<(), E>) -> bool {
    match end {
        CommunicationEnd::Control(error) => r == Err::<(), E>(error),
        CommunicationEnd::Send => r is Ok,
        CommunicationEnd::Receive(error) => r == Err::<(), E>(error),
    }
}

/// A communication ends well exactly if there are no more packets to send; the errors of the other tasks
/// are told as they are.
pub proof fn only_sending_ends_well<E>(end: CommunicationEnd<E>, r: Result<(), E>)
    requires
        ends_with(end, r),
    ensures
        r is Ok <==> end is Send,
        end is Control ==> r is Err && r->Err_0 == end->Control_0,
        end is Receive ==> r is Err && r->Err_0 == end->Receive_0,
{
}

/// Tells how a communication ended. That there are no more packets to send is no error.
pub fn communication_result<E>(end: CommunicationEnd<E>) -> (r: Result<(), E>)
    ensures
        ends_with(end, r),
        match end {
            CommunicationEnd::Control(error) => r == Err::<(), E>(error),
            CommunicationEnd::Send => r is Ok,
            CommunicationEnd::Receive(error) => r == Err::<(), E>(error),
        },
{
    match end {
        CommunicationEnd::Control(error) => Err(error),
        CommunicationEnd::Send => Ok(()),
        CommunicationEnd::Receive(error) => Err(error),
    }
}

} // verus!
