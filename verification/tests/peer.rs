use p2p_vpn::connection::connect::Delay;
use p2p_vpn::connection::iroh::{IrohConnection, Side};
use p2p_vpn::error::IoFailure;
use p2p_vpn::net::{IpAddr, IpNet};
use p2p_vpn::peer::{
    communication_result, egress, handshake_result, CommonPeerConfig, CommunicationEnd, Egress, Peer,
    PeerConfig,
};
use p2p_vpn::proto::v1::{Advertise, Command, ControlRequest, HostAddress};
use p2p_vpn::route::{NetRouteHandle, Route, RouteChange, ScopedRoute};
use p2p_vpn::tun::packet::{IcmpGateway, PacketError};
use std::io::ErrorKind;

fn net(text: &str) -> IpNet {
    IpNet::parse(text).unwrap()
}

fn peer() -> Peer {
    Peer::new(PeerConfig {
        common: CommonPeerConfig::new(4, 9, net("10.0.0.1/8"), net("10.0.0.0/8")),
        conn: IrohConnection { stable_id: 1, side: Side::Client, remote_id: [3; 32] },
        advertise: Advertise { own_addresses: vec![] },
    })
}

fn host(network: &str) -> HostAddress {
    HostAddress { peer_network: network.to_string(), peer_network_signature: vec![0; 64] }
}

fn advertise(networks: &[&str]) -> ControlRequest {
    let own_addresses = networks.iter().map(|n| host(n)).collect();
    ControlRequest { command: Some(Command::Advertise(Advertise { own_addresses })) }
}

fn route(ip: IpAddr) -> ScopedRoute {
    ScopedRoute::new(NetRouteHandle::from_handle(4, 9), ip, Ok(())).unwrap()
}

fn denied() -> IoFailure {
    IoFailure {
        raw_os_error: Some(1),
        kind: ErrorKind::PermissionDenied,
        message: "denied".to_string(),
    }
}

#[test]
fn configuration_allows_one_network_and_a_minute() {
    let common = CommonPeerConfig::new(4, 9, net("10.0.0.1/8"), net("fd00::/8"));
    assert_eq!(common.allowed_networks, vec![net("fd00::/8")]);
    assert_eq!(common.handshake_timeout, Delay { secs: 60, nanos: 0 });
    assert_eq!((common.route_table, common.tun_if_index), (4, 9));
    assert_eq!(common.own_net, net("10.0.0.1/8"));
    assert_eq!(peer().public_key(), [3; 32]);
    assert_eq!(peer().icmp_gateway(), IcmpGateway { own_ipv4: Some(0x0a000001), own_ipv6: None });
}

#[test]
fn advertised_addresses_replace_the_routes() {
    let old = vec![route(IpAddr::V4(1)), route(IpAddr::V4(2))];
    let request = advertise(&["10.1.1.1/32", "11.1.1.1/32", "10.2.2.2/24"]);
    let verified = [Ok(()), Ok(()), Ok(())];
    let (handler, given_up) = peer().handle_control_request(&request, &verified, old);
    assert_eq!(given_up.len(), 2);

    assert_eq!(handler.next_target(), Some(IpAddr::V4(0x0a010101)));
    let handler = handler.registered(Ok(())).ok().unwrap();
    assert_eq!(handler.next_target(), Some(IpAddr::V4(0x0a020202)));
    let handler = handler.registered(Ok(())).ok().unwrap();
    assert_eq!(handler.next_target(), None);
    let (routes, result) = handler.finish();
    assert!(result.is_ok());
    let targets: Vec<IpAddr> = routes.iter().map(|r| *r.dest_ip()).collect();
    assert_eq!(targets, vec![IpAddr::V4(0x0a010101), IpAddr::V4(0x0a020202)]);
    let route = Route { destination: IpAddr::V4(0x0a010101), prefix: 32, if_index: 9 };
    let first = routes.into_iter().next().unwrap();
    assert_eq!(first.drop_async(), RouteChange::Delete(route));
}

#[test]
fn failed_registration_keeps_the_routes_before_it() {
    let request = advertise(&["10.1.1.1/32", "10.2.2.2/32"]);
    let (handler, _) = peer().handle_control_request(&request, &[Ok(()), Ok(())], vec![]);
    let handler = handler.registered(Ok(())).ok().unwrap();
    let (routes, deletion, status) = handler.registered(Err(denied())).err().unwrap();
    let route = Route { destination: IpAddr::V4(0x0a020202), prefix: 32, if_index: 9 };
    assert_eq!(deletion, RouteChange::Delete(route));
    assert_eq!(routes.len(), 1);
    assert_eq!((status.code, status.message.as_str()), (7, "denied"));
}

#[test]
fn peers_without_routes_are_refused() {
    let request = advertise(&["bad", "10.2.2.2/32"]);
    let verified = [Ok(()), Err(vec!["not signed".to_string()])];
    let (handler, _) = peer().handle_control_request(&request, &verified, vec![]);
    assert_eq!(handler.next_target(), None);
    let (routes, result) = handler.finish();
    assert!(routes.is_empty());
    let status = result.unwrap_err();
    assert_eq!(status.code, 9);
    assert_eq!(
        status.message,
        "No available routes to the peer; [\
         when validating network 'bad'\n\nCaused by:\n    invalid IP address syntax, \
         when validating network '10.2.2.2/32'\n\nCaused by:\n    not signed]"
    );
}

#[test]
fn requests_without_a_command_leave_the_routes() {
    let request = ControlRequest { command: None };
    let old = vec![route(IpAddr::V4(1))];
    let (handler, given_up) = peer().handle_control_request(&request, &[], old);
    assert!(given_up.is_empty());
    assert_eq!(handler.next_target(), None);
    let (routes, result) = handler.finish();
    assert_eq!(routes.len(), 1);
    assert!(result.is_ok());

    let (handler, _) = peer().handle_control_request(&request, &[], vec![]);
    let (_, result) = handler.finish();
    assert_eq!(result.unwrap_err().message, "No available routes to the peer; []");
}

// Src: 192.168.1.10, Dst: 8.8.8.8
const IPV4_PACKET: [u8; 28] = [
    0x45, 0x00, 0x00, 0x1c, 0x00, 0x00, 0x40, 0x00, 0x40, 0x11, 0xb8, 0x2d, 0xc0, 0xa8, 0x01, 0x0a,
    0x08, 0x08, 0x08, 0x08, 0x0b, 0xb8, 0x0b, 0xb8, 0x00, 0x08, 0x00, 0x00,
];

#[test]
fn packets_that_fit_are_forwarded() {
    let gateway = peer().icmp_gateway();
    assert!(matches!(egress(&gateway, &IPV4_PACKET, None), Egress::Forward));
    assert!(matches!(egress(&gateway, &IPV4_PACKET, Some(28)), Egress::Forward));
}

#[test]
fn packets_that_are_too_big_are_answered() {
    let gateway = peer().icmp_gateway();
    match egress(&gateway, &IPV4_PACKET, Some(27)) {
        Egress::Reply { packet, to, mtu } => {
            assert_eq!(mtu, 27);
            assert_eq!(to, IpAddr::V4(0xc0a8010a));
            assert_eq!(&packet[20..22], &[3, 4]);
            assert_eq!(&packet[24..28], &[0, 0, 0, 27]);
            assert_eq!(&packet[28..], &IPV4_PACKET);
        }
        _ => panic!("not answered"),
    }
    match egress(&gateway, &[0xff; 30], Some(27)) {
        Egress::Drop { error, mtu } => {
            assert!(matches!(error, PacketError::Parse(_)));
            assert_eq!(mtu, 27);
        }
        _ => panic!("not dropped"),
    }
    // A size that is larger than what a message can tell.
    match egress(&gateway, &[0xff; 70001], Some(70000)) {
        Egress::Drop { mtu, .. } => assert_eq!(mtu, 65535),
        _ => panic!("not dropped"),
    }
}

#[test]
fn handshakes_report_sending_first() {
    assert!(handshake_result::<&str>(Ok(()), Ok(())).is_ok());
    assert_eq!(handshake_result(Err("s"), Err("r")), Err("s"));
    assert_eq!(handshake_result(Ok(()), Err("r")), Err("r"));
    assert_eq!(handshake_result(Err("s"), Ok(())), Err("s"));
}

#[test]
fn communications_end_well_when_there_is_nothing_to_send() {
    assert!(communication_result::<&str>(CommunicationEnd::Send).is_ok());
    assert_eq!(communication_result(CommunicationEnd::Control("c")), Err("c"));
    assert_eq!(communication_result(CommunicationEnd::Receive("r")), Err("r"));
}
