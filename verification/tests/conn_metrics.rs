use p2p_vpn::error::Label;
use p2p_vpn::peer::conn_metrics::{ConnectionStats, Gauge, Path, PathStats, QuinnMetrics, Unit};

fn metrics() -> QuinnMetrics {
    QuinnMetrics::new(vec![Label::new("peer", "abc")])
}

fn path(first: u64) -> PathStats {
    PathStats {
        rtt: first as u128,
        cwnd: first + 1,
        congestion_events: first + 2,
        lost_packets: first + 3,
        lost_bytes: first + 4,
        sent_plpmtud_probes: first + 5,
        lost_plpmtud_probes: first + 6,
        black_holes_detected: first + 7,
        current_mtu: 1400,
    }
}

fn path_values(m: &QuinnMetrics) -> Vec<Option<u128>> {
    [
        &m.rtt,
        &m.cwnd,
        &m.congestion_events,
        &m.lost_packets,
        &m.lost_bytes,
        &m.sent_plpmtud_probes,
        &m.lost_plpmtud_probes,
        &m.black_holes_detected,
        &m.current_mtu,
    ]
    .into_iter()
    .map(|g: &Gauge| g.value)
    .collect()
}

#[test]
fn gauges_are_described() {
    let m = metrics();
    assert_eq!(m.datagram_tx.name, "p2p_vpn_peer_quinn_datagram_tx");
    assert_eq!(m.datagram_tx.description, "The number of datagrams sent");
    assert_eq!(m.datagram_tx.unit, Some(Unit::Count));
    assert_eq!(m.datagram_tx.labels.len(), 1);
    assert_eq!(m.current_mtu.labels[0].name, "peer");
    assert_eq!(m.current_mtu.labels[0].value, "abc");
    assert_eq!(m.rtt.name, "p2p_vpn_peer_quinn_rtt_seconds");
    assert_eq!(m.rtt.unit, Some(Unit::Seconds));
    assert_eq!(m.cwnd.unit, None);
    assert_eq!(m.lost_bytes.unit, Some(Unit::Bytes));
    assert_eq!(m.black_holes_detected.name, "p2p_vpn_peer_quinn_black_holes_detected_total");
    assert_eq!(path_values(&m), vec![None; 9]);
}

#[test]
fn statistics_are_recorded() {
    let mut m = metrics();
    m.update_connection(&ConnectionStats { datagram_tx: 5, datagram_rx: 6 });
    assert_eq!((m.datagram_tx.value, m.datagram_rx.value), (Some(5), Some(6)));
    assert_eq!(path_values(&m), vec![None; 9]);
    m.update_path(&path(10));
    let expected: Vec<Option<u128>> = vec![10, 11, 12, 13, 14, 15, 16, 17, 1400]
        .into_iter()
        .map(Some)
        .collect();
    assert_eq!(path_values(&m), expected);
}

#[test]
fn the_selected_path_is_exported_while_the_connection_is_open() {
    let stats = ConnectionStats { datagram_tx: 1, datagram_rx: 2 };
    let paths = [
        Path { selected: false, stats: Some(path(10)) },
        Path { selected: true, stats: Some(path(20)) },
        Path { selected: true, stats: Some(path(30)) },
    ];
    let mut m = metrics();
    assert!(m.export(false, &stats, &paths));
    assert_eq!(m.datagram_tx.value, Some(1));
    assert_eq!(m.rtt.value, Some(20));

    let mut m = metrics();
    assert!(m.export(false, &stats, &[Path { selected: true, stats: None }]));
    assert_eq!(m.datagram_rx.value, Some(2));
    assert_eq!(path_values(&m), vec![None; 9]);

    let mut m = metrics();
    assert!(!m.export(true, &stats, &paths));
    assert_eq!(m.datagram_tx.value, None);
    assert_eq!(path_values(&m), vec![None; 9]);
}
