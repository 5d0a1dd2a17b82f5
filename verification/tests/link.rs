use p2p_vpn::connection::actor::{Actor, ActorAction, Direction};
use p2p_vpn::connection::connect::LoopState;
use p2p_vpn::connection::iroh::{
    endpoint_above, same_endpoint, EndpointId, IrohConnection, IrohConnector, Side,
};
use p2p_vpn::connection::peer::{link_result, waits_for_actor, PeerLink};
use p2p_vpn::error::{JoinError, Status};
use thin_status::ErrorCode;

fn key(first: u8, last: u8) -> EndpointId {
    let mut key = [0u8; 32];
    key[0] = first;
    key[31] = last;
    key
}

fn connector(local: EndpointId, peer: EndpointId) -> IrohConnector {
    IrohConnector { local, peer, alpn: b"zeroconf-p2p-vpn/vpn/1.0".to_vec() }
}

fn connection(id: usize, side: Side, remote_id: EndpointId) -> IrohConnection {
    IrohConnection { stable_id: id, side, remote_id }
}

fn prefers(actor: &mut Actor<IrohConnection>) -> Direction {
    let remote = key(0, 0);
    actor.handle_connection_candidate(connection(1, Side::Client, remote));
    match actor.handle_connection_candidate(connection(2, Side::Client, remote)) {
        ActorAction::Install(_) => Direction::Outgoing,
        _ => Direction::Incoming,
    }
}

#[test]
fn keys_are_compared_from_the_first_byte_on() {
    assert!(endpoint_above(&key(2, 0), &key(1, 255)));
    assert!(!endpoint_above(&key(1, 255), &key(2, 0)));
    assert!(endpoint_above(&key(1, 2), &key(1, 1)));
    assert!(!endpoint_above(&key(1, 1), &key(1, 1)));
    assert!(same_endpoint(&key(1, 1), &key(1, 1)));
    assert!(!same_endpoint(&key(1, 1), &key(1, 2)));
    // The order is that of public keys.
    let a = iroh_base::SecretKey::from_bytes(&[1; 32]).public();
    let b = iroh_base::SecretKey::from_bytes(&[2; 32]).public();
    assert_eq!(endpoint_above(a.as_bytes(), b.as_bytes()), a > b);
    assert_eq!(endpoint_above(b.as_bytes(), a.as_bytes()), b > a);
}

#[test]
fn links_prefer_by_the_keys() {
    let (handle, mut actor, outgoing) = PeerLink::new(connector(key(2, 0), key(1, 0))).spawn();
    assert_eq!(handle.connector.alpn, b"zeroconf-p2p-vpn/vpn/1.0");
    assert!(actor.current().is_none());
    assert_eq!(outgoing.state, LoopState::Idle);
    assert_eq!(prefers(&mut actor), Direction::Outgoing);
    let (_, mut actor, _) = PeerLink::new(connector(key(1, 0), key(2, 0))).spawn();
    assert_eq!(prefers(&mut actor), Direction::Incoming);
}

#[test]
fn only_connections_of_the_peer_are_accepted() {
    let (handle, _, _) = PeerLink::new(connector(key(2, 0), key(1, 0))).spawn();
    let receiver = handle.incoming_receiver();
    let expected = connection(1, Side::Server, key(1, 0));
    let other = connection(2, Side::Server, key(1, 1));
    assert!(receiver.check(&expected).is_ok());
    assert!(receiver.send(&expected, Ok(())).is_ok());
    let err = receiver.send(&expected, Err("channel closed".to_string())).unwrap_err();
    assert_eq!((err.code, err.message.as_str()), (9, "channel closed"));
    let err = receiver.send(&other, Ok(())).unwrap_err();
    assert_eq!(err.code, 3);
    assert_eq!(
        err.message,
        "conn.conn.remote_id() != self.peer_id; remote peer address doesn't match the configured one"
    );
}

#[test]
fn links_end_with_the_first_error() {
    let cancelled = || Ok(Err(Status::new(ErrorCode::Cancelled, String::new())));
    let failed = |message: &str| {
        Ok(Err(Status::new(ErrorCode::FailedPrecondition, message.to_string())))
    };
    let panicked = || Err(JoinError { cancelled: false, message: "panic".to_string() });
    assert!(link_result(cancelled(), Some(cancelled())).is_ok());
    assert_eq!(link_result(failed("o"), Some(failed("a"))).unwrap_err().message, "o");
    assert_eq!(link_result(cancelled(), Some(failed("a"))).unwrap_err().message, "a");
    assert_eq!(link_result(failed("o"), Some(cancelled())).unwrap_err().message, "o");
    assert_eq!(link_result(cancelled(), Some(panicked())).unwrap_err().code, 13);
    // A link whose loop has failed does not wait for its actor.
    assert!(waits_for_actor(&cancelled()));
    assert!(waits_for_actor(&Ok(Ok(()))));
    assert!(!waits_for_actor(&failed("o")));
    assert!(!waits_for_actor(&panicked()));
    assert_eq!(link_result(failed("o"), None).unwrap_err().message, "o");
    assert_eq!(link_result(panicked(), None).unwrap_err().code, 13);
}

#[test]
fn directions_are_ordered() {
    assert!(Direction::Incoming < Direction::Outgoing);
}
