use p2p_vpn::error::IoFailure;
use p2p_vpn::net::IpAddr;
use p2p_vpn::relay::{PeerValue, Relay};
use std::collections::HashSet;
use std::io::ErrorKind;
use std::sync::{Arc, Mutex};

/// The peers that relays in these tests know, by their numbers.
const PEERS: [&str; 6] = [
    "peer_1",
    "node_alpha",
    "initial_peer",
    "updated_peer",
    "fail_node",
    "concurrent_node",
];

fn peer(name: &str) -> PeerValue<u64> {
    PeerValue(PEERS.iter().position(|p| *p == name).unwrap() as u64)
}

fn name(number: Option<u64>) -> Option<&'static str> {
    number.map(|n| PEERS[n as usize])
}

/// In-memory fake routing table
struct MockRoutes {
    active_routes: HashSet<(u8, u128)>,
    should_fail: bool,
}

fn id(ip: &IpAddr) -> (u8, u128) {
    match ip {
        IpAddr::V4(a) => (4, *a as u128),
        IpAddr::V6(a) => (6, *a),
    }
}

impl MockRoutes {
    fn new() -> Self {
        MockRoutes { active_routes: HashSet::new(), should_fail: false }
    }

    fn add(&mut self, ips: &[IpAddr]) -> Result<(), IoFailure> {
        if self.should_fail {
            return Err(IoFailure {
                raw_os_error: None,
                kind: ErrorKind::PermissionDenied,
                message: "Mock OS route insert error".to_string(),
            });
        }
        self.active_routes.extend(ips.iter().map(id));
        Ok(())
    }

    fn remove(&mut self, ips: &[IpAddr]) {
        for ip in ips {
            self.active_routes.remove(&id(ip));
        }
    }

    fn has_route(&self, ip: &IpAddr) -> bool {
        self.active_routes.contains(&id(ip))
    }
}

fn ip4(a: u8, b: u8, c: u8, d: u8) -> IpAddr {
    IpAddr::V4(u32::from_be_bytes([a, b, c, d]))
}

fn ip6(a: u16, b: u16) -> IpAddr {
    IpAddr::V6(((a as u128) << 112) | ((b as u128) << 96) | 1)
}

#[test]
fn test_insert_and_get_single_ip() {
    let mut routes = MockRoutes::new();
    let mut relay = Relay::new();

    let ip = ip4(192, 168, 1, 10);
    let ips = vec![ip];
    let result = relay.insert(&ips, peer("peer_1"), routes.add(&ips));

    assert!(result.is_ok(), "Insert should succeed for valid IP");
    assert!(routes.has_route(&ip), "Route must be registered in mock table");
    assert_eq!(name(relay.get(&ip)), Some("peer_1"));
}

#[test]
fn test_insert_and_get_multiple_ips() {
    let mut routes = MockRoutes::new();
    let mut relay = Relay::new();

    let ip1 = ip4(10, 0, 0, 1);
    let ip2 = ip4(10, 0, 0, 2);
    let ip3 = ip6(0x2001, 0xdb8);

    let ips = vec![ip1, ip2, ip3];
    let result = relay.insert(&ips, PeerValue(42), routes.add(&ips));

    assert!(result.is_ok());
    assert!(routes.has_route(&ip1));
    assert!(routes.has_route(&ip2));
    assert!(routes.has_route(&ip3));

    assert_eq!(relay.get(&ip1), Some(42));
    assert_eq!(relay.get(&ip2), Some(42));
    assert_eq!(relay.get(&ip3), Some(42));
}

#[test]
fn test_get_non_existent_ip() {
    let relay = Relay::new();

    let ip = ip4(172, 16, 0, 1);
    assert_eq!(relay.get(&ip), None);
}

#[test]
fn test_remove_ips() {
    let mut routes = MockRoutes::new();
    let mut relay = Relay::new();

    let ip1 = ip4(192, 168, 10, 1);
    let ip2 = ip4(192, 168, 10, 2);

    let ips = vec![ip1, ip2];
    assert!(relay.insert(&ips, peer("node_alpha"), routes.add(&ips)).is_ok());

    assert_eq!(name(relay.get(&ip1)), Some("node_alpha"));
    assert!(routes.has_route(&ip1));

    // Remove only ip1
    let remove_ips = vec![ip1];
    let removed = relay.remove(&remove_ips);
    routes.remove(&removed);

    assert_eq!(relay.get(&ip1), None, "ip1 should be removed from relay map");
    assert!(
        !routes.has_route(&ip1),
        "ip1 should be removed from mock routing table"
    );
    assert_eq!(
        name(relay.get(&ip2)),
        Some("node_alpha"),
        "ip2 should remain in map"
    );
    assert!(
        routes.has_route(&ip2),
        "ip2 should remain in mock routing table"
    );
}

#[test]
fn test_overwrite_existing_ip() {
    let mut relay = Relay::new();

    let ip = ip4(192, 168, 100, 5);
    let ips = vec![ip];
    assert!(relay.insert(&ips, peer("initial_peer"), Ok(())).is_ok());
    assert_eq!(name(relay.get(&ip)), Some("initial_peer"));

    assert!(relay.insert(&ips, peer("updated_peer"), Ok(())).is_ok());
    assert_eq!(name(relay.get(&ip)), Some("updated_peer"));
}

#[test]
fn test_insert_failure_rollback() {
    let mut routes = MockRoutes::new();
    let mut relay = Relay::new();

    let ip1 = ip4(10, 0, 0, 1);
    let ip2 = ip4(10, 0, 0, 2);
    let ips = vec![ip1, ip2];

    // Force the mock routing table to fail on route insertion
    routes.should_fail = true;

    let result = relay.insert(&ips, peer("fail_node"), routes.add(&ips));

    assert!(
        result.is_err(),
        "Insert must return error when route creation fails"
    );
    assert_eq!(
        relay.get(&ip1),
        None,
        "Map must rollback and remain empty on failure"
    );
    assert_eq!(
        relay.get(&ip2),
        None,
        "Map must rollback and remain empty on failure"
    );
}

#[test]
fn failed_insertion_tells_what_to_remove_and_count() {
    let mut routes = MockRoutes::new();
    let mut relay = Relay::new();
    let kept = ip4(10, 0, 0, 9);
    let ips = vec![ip4(10, 0, 0, 1), ip6(1, 2)];
    assert!(relay.insert(&[kept, ips[0]], PeerValue(7), Ok(())).is_ok());

    routes.should_fail = true;
    let failure = match relay.insert(&ips, PeerValue(8), routes.add(&ips)) {
        Err(failure) => failure,
        Ok(()) => panic!("inserted"),
    };

    assert_eq!(failure.status.code, 7);
    assert_eq!(failure.status.message, "Mock OS route insert error");
    assert_eq!(failure.remove_routes, ips);
    let labels: Vec<(&str, &str)> =
        failure.labels.iter().map(|l| (l.name.as_str(), l.value.as_str())).collect();
    assert_eq!(
        labels,
        vec![("ERROR_CODE", "PERMISSION_DENIED"), ("ERROR_KIND", "PermissionDenied")]
    );
    // The binding that was there before is gone too, others stay.
    assert_eq!(relay.get(&ips[0]), None);
    assert_eq!(relay.get(&kept), Some(7));
}

#[test]
fn versions_are_told_apart() {
    let mut relay = Relay::new();
    assert!(relay.insert(&[IpAddr::V4(5)], PeerValue(1), Ok(())).is_ok());
    assert_eq!(relay.get(&IpAddr::V6(5)), None);
    assert!(relay.insert(&[IpAddr::V6(5)], PeerValue(2), Ok(())).is_ok());
    assert_eq!(relay.get(&IpAddr::V4(5)), Some(1));
    let removed = relay.remove(&[IpAddr::V4(5), IpAddr::V4(6), IpAddr::V4(5)]);
    assert_eq!(removed, vec![IpAddr::V4(5), IpAddr::V4(6), IpAddr::V4(5)]);
    assert_eq!(relay.get(&IpAddr::V4(5)), None);
    assert_eq!(relay.get(&IpAddr::V6(5)), Some(2));
}

#[test]
fn test_concurrent_access_get_and_insert() {
    let runtime = tokio::runtime::Builder::new_multi_thread().worker_threads(2).build().unwrap();
    let routes = Arc::new(Mutex::new(MockRoutes::new()));
    let relay = Arc::new(tokio::sync::RwLock::new(Relay::new()));
    let ip = ip4(10, 1, 1, 1);

    // Writer task executing concurrently
    let relay_writer = Arc::clone(&relay);
    let routes_writer = Arc::clone(&routes);
    let writer_handle = runtime.spawn(async move {
        let ips = vec![ip];
        let added = routes_writer.lock().unwrap().add(&ips);
        let result = relay_writer.write().await.insert(&ips, peer("concurrent_node"), added);
        result.is_ok()
    });

    // Reader task executing concurrently
    let relay_reader = Arc::clone(&relay);
    let reader_handle = runtime.spawn(async move {
        for _ in 0..100 {
            let _ = relay_reader.read().await.get(&ip);
            tokio::task::yield_now().await;
        }
    });

    runtime.block_on(async move {
        assert!(writer_handle.await.unwrap());
        reader_handle.await.unwrap();
        assert_eq!(name(relay.read().await.get(&ip)), Some("concurrent_node"));
        assert!(routes.lock().unwrap().has_route(&ip));
    });
}
