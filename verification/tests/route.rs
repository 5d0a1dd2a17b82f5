use p2p_vpn::error::IoFailure;
use p2p_vpn::net::IpAddr;
use p2p_vpn::osal::if_addr::ScopedIfAddr;
use p2p_vpn::osal::route::ScopedRoute as KernelRoute;
use p2p_vpn::route::{NetRouteHandle, Route, RouteChange, ScopedRoute};
use std::io::ErrorKind;

fn failure() -> IoFailure {
    IoFailure {
        raw_os_error: Some(1),
        kind: ErrorKind::PermissionDenied,
        message: "denied".to_string(),
    }
}

#[test]
fn routes_lead_to_single_addresses() {
    let handle = NetRouteHandle::from_handle(1, 7);
    assert_eq!(
        handle.route_entry(IpAddr::V4(5)),
        Route { destination: IpAddr::V4(5), prefix: 32, if_index: 7 }
    );
    assert_eq!(
        handle.route_entry(IpAddr::V6(5)),
        Route { destination: IpAddr::V6(5), prefix: 128, if_index: 7 }
    );
}

#[test]
fn handles_are_equal_if_they_are_the_same() {
    assert!(NetRouteHandle::from_handle(1, 7) == NetRouteHandle::from_handle(1, 8));
    assert!(NetRouteHandle::from_handle(1, 7) != NetRouteHandle::from_handle(2, 7));
}

#[test]
fn routes_are_kept_once_they_are_registered() {
    let handle = NetRouteHandle::from_handle(1, 7);
    let route = ScopedRoute::new(handle, IpAddr::V6(9), Ok(())).unwrap();
    assert_eq!(*route.dest_ip(), IpAddr::V6(9));
    assert_eq!(
        route.drop_async(),
        RouteChange::Delete(Route { destination: IpAddr::V6(9), prefix: 128, if_index: 7 })
    );
    let (deletion, err) = ScopedRoute::new(handle, IpAddr::V6(9), Err(failure())).unwrap_err();
    assert_eq!(deletion, handle.remove(IpAddr::V6(9)));
    assert_eq!(err.message, "denied");
}

#[test]
fn removing_asks_for_the_route_that_inserting_asked_for() {
    let handle = NetRouteHandle::from_handle(1, 7);
    for (ip, prefix) in [(IpAddr::V4(5), 32), (IpAddr::V6(5), 128)] {
        let route = Route { destination: ip, prefix, if_index: 7 };
        assert_eq!(handle.insert(ip), RouteChange::Add(route));
        assert_eq!(handle.remove(ip), RouteChange::Delete(route));
        let kept = ScopedRoute::new(handle, ip, Ok(())).unwrap();
        assert_eq!(kept.drop_async(), handle.remove(ip));
    }
}

#[test]
fn changes_of_the_routing_table_are_recorded() {
    let handle = NetRouteHandle::from_handle(1, 7);
    let step = handle.insert(IpAddr::V4(5)).finish(Ok(())).unwrap();
    assert_eq!((step.name, step.ip, step.up), ("p2p_vpn_route_add", "v4", true));
    let step = handle.remove(IpAddr::V6(5)).finish(Ok(())).unwrap();
    assert_eq!((step.name, step.ip, step.up), ("p2p_vpn_route_route_active", "v6", false));
    for change in [handle.insert(IpAddr::V4(5)), handle.remove(IpAddr::V4(5))] {
        let err = change.finish(Err(failure())).unwrap_err();
        assert_eq!(err.raw_os_error, Some(1));
        assert_eq!(err.kind, ErrorKind::PermissionDenied);
        assert_eq!(err.message, "denied");
    }
}

#[test]
fn failed_cleanups_are_counted_by_family() {
    let handle = NetRouteHandle::from_handle(1, 7);
    let labels = handle.remove(IpAddr::V4(9)).cleanup_error_labels(&failure());
    let labels: Vec<(&str, &str)> =
        labels.iter().map(|l| (l.name.as_str(), l.value.as_str())).collect();
    assert_eq!(
        labels,
        vec![
            ("ERROR_CODE", "PERMISSION_DENIED"),
            ("ERROR_KIND", "PermissionDenied"),
            ("ip", "v4")
        ]
    );
}

#[test]
fn kernel_routes_and_addresses_use_whole_addresses() {
    let route = KernelRoute::new(3, IpAddr::V4(1));
    assert_eq!(
        route.message(),
        Route { destination: IpAddr::V4(1), prefix: 32, if_index: 3 }
    );
    assert_eq!(route.version_label(), "v4");
    let addr = ScopedIfAddr::new(3, IpAddr::V6(1));
    assert_eq!(ScopedIfAddr::prefix_len(&addr.ip), 128);
    assert_eq!(ScopedIfAddr::prefix_len(&IpAddr::V4(1)), 32);
    assert_eq!(addr.version_label(), "v6");
}
