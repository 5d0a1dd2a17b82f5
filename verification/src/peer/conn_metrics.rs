//! Metrics of a connection.

use crate::error::Label;
use vstd::prelude::*;

verus! {

/// What a metric counts.
#[derive(Clone, Copy, Debug, PartialEq, Eq, Structural)]
pub enum Unit {
    Count,
    Seconds,
    Bytes,
}

/// A metric that can go up and down. Its value is known once it was set.
#[derive(Debug)]
pub struct Gauge {
    pub name: String,
    pub description: String,
    pub unit: Option<Unit>,
    pub labels: Vec<Label>,
    pub value: Option<u128>,
}

/// Whether two series of labels are the same.
pub open spec fn same_labels(a: Seq<Label>, b: Seq<Label>) -> bool {
    &&& a.len() == b.len()
    &&& forall|i: int| 0 <= i < a.len() ==> (#[trigger] a[i]).is(b[i].name@, b[i].value@)
}

fn copy_labels(labels: &Vec<Label>) -> (r: Vec<Label>)
    ensures
        same_labels(r@, labels@),
{
    let mut r: Vec<Label> = Vec::new();
    let mut i: usize = 0;
    while i < labels.len()
        invariant
            i <= labels.len(),
            r@.len() == i,
            forall|j: int| 0 <= j < i ==> (#[trigger] r@[j]).is(labels@[j].name@, labels@[j].value@),
        decreases labels.len() - i,
    {
        r.push(Label::new(labels[i].name.as_str(), labels[i].value.as_str()));
        i = i + 1;
    }
    r
}

impl Gauge {
    /// Whether this gauge is described as told.
    pub open spec fn described(
        self,
        name: Seq<char>,
        description: Seq<char>,
        unit: Option<Unit>,
        labels: Seq<Label>,
    ) -> bool {
        &&& self.name@ == name
        &&& self.description@ == description
        &&& self.unit == unit
        &&& same_labels(self.labels@, labels)
    }

    /// A gauge that was not set.
    pub fn new(name: &str, description: &str, unit: Option<Unit>, labels: &Vec<Label>) -> (r: Gauge)
        ensures
            r.described(name@, description@, unit, labels@),
            r.name@ == name@,
            r.description@ == description@,
            r.unit == unit,
            r.labels@.len() == labels@.len(),
            forall|i: int|
                0 <= i < labels@.len() ==> (#[trigger] r.labels@[i]).name@ == labels@[i].name@
                    && r.labels@[i].value@ == labels@[i].value@,
            r.value is None,
    {
        Gauge {
            name: name.to_owned(),
            description: description.to_owned(),
            unit,
            labels: copy_labels(labels),
            value: None,
        }
    }

    /// Whether this is the gauge `before`, set to a value.
    pub open spec fn sets(self, before: Gauge, value: u128) -> bool {
        &&& self.name == before.name
        &&& self.description == before.description
        &&& self.unit == before.unit
        &&& self.labels == before.labels
        &&& self.value == Some(value)
    }

    /// Sets the value.
    pub fn set(&mut self, value: u128)
        ensures
            final(self).sets(*old(self), value),
            final(self).value == Some(value),
            final(self).name == old(self).name,
            final(self).description == old(self).description,
            final(self).unit == old(self).unit,
            final(self).labels == old(self).labels,
    {
        self.value = Some(value);
    }
}

/// Statistics of a connection.
#[derive(Clone, Copy, Debug)]
pub struct ConnectionStats {
    /// How many datagram frames were sent.
    pub datagram_tx: u64,
    /// How many datagram frames were received.
    pub datagram_rx: u64,
}

/// Statistics of a network path.
#[derive(Clone, Copy, Debug)]
pub struct PathStats {
    /// In nanoseconds.
    pub rtt: u128,
    pub cwnd: u64,
    pub congestion_events: u64,
    pub lost_packets: u64,
    pub lost_bytes: u64,
    pub sent_plpmtud_probes: u64,
    pub lost_plpmtud_probes: u64,
    pub black_holes_detected: u64,
    pub current_mtu: u16,
}

/// A network path of a connection.
#[derive(Clone, Copy, Debug)]
pub struct Path {
    /// Whether it is the one that is used.
    pub selected: bool,
    /// Its statistics, unless the connection is gone.
    pub stats: Option<PathStats>,
}

/// The metrics of a connection.
#[derive(Debug)]
pub struct QuinnMetrics {
    pub datagram_tx: Gauge,
    pub datagram_rx: Gauge,
    /// In nanoseconds.
    pub rtt: Gauge,
    pub cwnd: Gauge,
    pub congestion_events: Gauge,
    pub lost_packets: Gauge,
    pub lost_bytes: Gauge,
    pub sent_plpmtud_probes: Gauge,
    pub lost_plpmtud_probes: Gauge,
    pub black_holes_detected: Gauge,
    pub current_mtu: Gauge,
}

impl QuinnMetrics {
    /// Gauges that were not set, with the given labels.
    pub fn new(labels: Vec<Label>) -> (r: QuinnMetrics)
        ensures
            r.datagram_tx.described(
                "p2p_vpn_peer_quinn_datagram_tx"@,
                "The number of datagrams sent"@,
                Some(Unit::Count),
                labels@,
            ),
            r.datagram_tx.value is None,
            r.datagram_rx.described(
                "p2p_vpn_peer_quinn_datagram_rx"@,
                "The number of datagrams received"@,
                Some(Unit::Count),
                labels@,
            ),
            r.datagram_rx.value is None,
            r.rtt.described(
                "p2p_vpn_peer_quinn_rtt_seconds"@,
                "Current best estimate of this connection’s latency (round-trip-time)"@,
                Some(Unit::Seconds),
                labels@,
            ),
            r.rtt.value is None,
            r.cwnd.described(
                "p2p_vpn_peer_quinn_cwnd"@,
                "Current congestion window of the connection"@,
                None,
                labels@,
            ),
            r.cwnd.value is None,
            r.congestion_events.described(
                "p2p_vpn_peer_quinn_congestion_events_total"@,
                "Congestion events on the connection"@,
                Some(Unit::Count),
                labels@,
            ),
            r.congestion_events.value is None,
            r.lost_packets.described(
                "p2p_vpn_peer_quinn_lost_packets_total"@,
                "The amount of packets lost on the current path"@,
                Some(Unit::Count),
                labels@,
            ),
            r.lost_packets.value is None,
            r.lost_bytes.described(
                "p2p_vpn_peer_quinn_lost_bytes_total"@,
                "The amount of bytes lost on the current path"@,
                Some(Unit::Bytes),
                labels@,
            ),
            r.lost_bytes.value is None,
            r.sent_plpmtud_probes.described(
                "p2p_vpn_peer_quinn_sent_plpmtud_probes_total"@,
                "The amount of PLPMTUD probe packets sent on the current path (also counted by sent_packets)"@,
                Some(Unit::Count),
                labels@,
            ),
            r.sent_plpmtud_probes.value is None,
            r.lost_plpmtud_probes.described(
                "p2p_vpn_peer_quinn_lost_plpmtud_probes_total"@,
                "The amount of PLPMTUD probe packets lost on the current path (ignored by lost_packets and lost_bytes)"@,
                Some(Unit::Count),
                labels@,
            ),
            r.lost_plpmtud_probes.value is None,
            r.black_holes_detected.described(
                "p2p_vpn_peer_quinn_black_holes_detected_total"@,
                "The number of times a black hole was detected in the current path"@,
                Some(Unit::Count),
                labels@,
            ),
            r.black_holes_detected.value is None,
            r.current_mtu.described(
                "p2p_vpn_peer_quinn_current_mtu_bytes"@,
                "Largest UDP payload size the current path currently supports"@,
                Some(Unit::Bytes),
                labels@,
            ),
            r.current_mtu.value is None,
    {
        QuinnMetrics {
            datagram_tx: Gauge::new(
                "p2p_vpn_peer_quinn_datagram_tx",
                "The number of datagrams sent",
                Some(Unit::Count),
                &labels,
            ),
            datagram_rx: Gauge::new(
                "p2p_vpn_peer_quinn_datagram_rx",
                "The number of datagrams received",
                Some(Unit::Count),
                &labels,
            ),
            rtt: Gauge::new(
                "p2p_vpn_peer_quinn_rtt_seconds",
                "Current best estimate of this connection’s latency (round-trip-time)",
                Some(Unit::Seconds),
                &labels,
            ),
            cwnd: Gauge::new(
                "p2p_vpn_peer_quinn_cwnd",
                "Current congestion window of the connection",
                None,
                &labels,
            ),
            congestion_events: Gauge::new(
                "p2p_vpn_peer_quinn_congestion_events_total",
                "Congestion events on the connection",
                Some(Unit::Count),
                &labels,
            ),
            lost_packets: Gauge::new(
                "p2p_vpn_peer_quinn_lost_packets_total",
                "The amount of packets lost on the current path",
                Some(Unit::Count),
                &labels,
            ),
            lost_bytes: Gauge::new(
                "p2p_vpn_peer_quinn_lost_bytes_total",
                "The amount of bytes lost on the current path",
                Some(Unit::Bytes),
                &labels,
            ),
            sent_plpmtud_probes: Gauge::new(
                "p2p_vpn_peer_quinn_sent_plpmtud_probes_total",
                "The amount of PLPMTUD probe packets sent on the current path (also counted by sent_packets)",
                Some(Unit::Count),
                &labels,
            ),
            lost_plpmtud_probes: Gauge::new(
                "p2p_vpn_peer_quinn_lost_plpmtud_probes_total",
                "The amount of PLPMTUD probe packets lost on the current path (ignored by lost_packets and lost_bytes)",
                Some(Unit::Count),
                &labels,
            ),
            black_holes_detected: Gauge::new(
                "p2p_vpn_peer_quinn_black_holes_detected_total",
                "The number of times a black hole was detected in the current path",
                Some(Unit::Count),
                &labels,
            ),
            current_mtu: Gauge::new(
                "p2p_vpn_peer_quinn_current_mtu_bytes",
                "Largest UDP payload size the current path currently supports",
                Some(Unit::Bytes),
                &labels,
            ),
        }
    }

    /// Whether the gauges of the connection are set.
    pub open spec fn sets_connection(
        before: QuinnMetrics,
        stats: ConnectionStats,
        after: QuinnMetrics,
    ) -> bool {
        &&& after.datagram_tx.sets(before.datagram_tx, stats.datagram_tx as u128)
        &&& after.datagram_rx.sets(before.datagram_rx, stats.datagram_rx as u128)
    }

    /// Whether the gauges of the connection are the same.
    pub open spec fn same_connection(a: QuinnMetrics, b: QuinnMetrics) -> bool {
        &&& a.datagram_tx == b.datagram_tx
        &&& a.datagram_rx == b.datagram_rx
    }

    /// Whether the gauges of the path are the same.
    pub open spec fn same_path(a: QuinnMetrics, b: QuinnMetrics) -> bool {
        &&& a.rtt == b.rtt
        &&& a.cwnd == b.cwnd
        &&& a.congestion_events == b.congestion_events
        &&& a.lost_packets == b.lost_packets
        &&& a.lost_bytes == b.lost_bytes
        &&& a.sent_plpmtud_probes == b.sent_plpmtud_probes
        &&& a.lost_plpmtud_probes == b.lost_plpmtud_probes
        &&& a.black_holes_detected == b.black_holes_detected
        &&& a.current_mtu == b.current_mtu
    }

    /// Whether the gauges of the path are set.
    pub open spec fn sets_path(
        before: QuinnMetrics,
        stats: PathStats,
        after: QuinnMetrics,
    ) -> bool {
        &&& after.rtt.sets(before.rtt, stats.rtt)
        &&& after.cwnd.sets(before.cwnd, stats.cwnd as u128)
        &&& after.congestion_events.sets(before.congestion_events, stats.congestion_events as u128)
        &&& after.lost_packets.sets(before.lost_packets, stats.lost_packets as u128)
        &&& after.lost_bytes.sets(before.lost_bytes, stats.lost_bytes as u128)
        &&& after.sent_plpmtud_probes.sets(before.sent_plpmtud_probes, stats.sent_plpmtud_probes as u128)
        &&& after.lost_plpmtud_probes.sets(before.lost_plpmtud_probes, stats.lost_plpmtud_probes as u128)
        &&& after.black_holes_detected.sets(before.black_holes_detected, stats.black_holes_detected as u128)
        &&& after.current_mtu.sets(before.current_mtu, stats.current_mtu as u128)
    }

    /// Records the statistics of a connection.
    pub fn update_connection(&mut self, stats: &ConnectionStats)
        ensures
            Self::sets_connection(*old(self), *stats, *final(self)),
            Self::same_path(*old(self), *final(self)),
    {
        self.datagram_tx.set(stats.datagram_tx as u128);
        self.datagram_rx.set(stats.datagram_rx as u128);
    }

    /// Records the statistics of the current path.
    pub fn update_path(&mut self, stats: &PathStats)
        ensures
            Self::sets_path(*old(self), *stats, *final(self)),
            Self::same_connection(*old(self), *final(self)),
    {
        self.rtt.set(stats.rtt);
        self.cwnd.set(stats.cwnd as u128);
        self.congestion_events.set(stats.congestion_events as u128);
        self.lost_packets.set(stats.lost_packets as u128);
        self.lost_bytes.set(stats.lost_bytes as u128);
        self.sent_plpmtud_probes.set(stats.sent_plpmtud_probes as u128);
        self.lost_plpmtud_probes.set(stats.lost_plpmtud_probes as u128);
        self.black_holes_detected.set(stats.black_holes_detected as u128);
        self.current_mtu.set(stats.current_mtu as u128);
    }

    /// Records the statistics of a connection and of its path, as is done periodically. Tells whether
    /// to go on: nothing is recorded any more once the connection is closed.
    pub fn export(&mut self, closed: bool, stats: &ConnectionStats, paths: &[Path]) -> (r: bool)
        ensures
            r <==> !closed,
            closed ==> *final(self) == *old(self),
            !closed ==> final(self).datagram_tx.value is Some && final(self).datagram_tx.value->0
                == stats.datagram_tx,
            !closed ==> final(self).datagram_rx.value is Some && final(self).datagram_rx.value->0
                == stats.datagram_rx,
            !closed ==> Self::sets_connection(*old(self), *stats, *final(self)),
            !closed ==> match used_path(paths@) {
                Some(path) => Self::sets_path(*old(self), path, *final(self)),
                None => Self::same_path(*old(self), *final(self)),
            },
    {
        if closed {
            return false;
        }
        self.update_connection(stats);
        match find_used_path(paths) {
            Some(path) => self.update_path(&path),
            None => {},
        }
        true
    }
}

/// What is recorded of a connection: each gauge has the value of its own statistic, and is described as
/// before.
pub proof fn connection_gauges_have_their_statistics(
    before: QuinnMetrics,
    stats: ConnectionStats,
    after: QuinnMetrics,
)
    requires
        QuinnMetrics::sets_connection(before, stats, after),
    ensures
        after.datagram_tx.value is Some && after.datagram_tx.value->0 == stats.datagram_tx,
        after.datagram_rx.value is Some && after.datagram_rx.value->0 == stats.datagram_rx,
        after.datagram_tx.name == before.datagram_tx.name,
        after.datagram_rx.name == before.datagram_rx.name,
        after.datagram_tx.labels == before.datagram_tx.labels,
        after.datagram_rx.labels == before.datagram_rx.labels,
{
}

/// What is recorded of a path: each gauge has the value of its own statistic, and is described as
/// before.
pub proof fn path_gauges_have_their_statistics(
    before: QuinnMetrics,
    stats: PathStats,
    after: QuinnMetrics,
)
    requires
        QuinnMetrics::sets_path(before, stats, after),
    ensures
        after.rtt.value == Some(stats.rtt),
        after.cwnd.value is Some && after.cwnd.value->0 == stats.cwnd,
        after.congestion_events.value is Some && after.congestion_events.value->0
            == stats.congestion_events,
        after.lost_packets.value is Some && after.lost_packets.value->0 == stats.lost_packets,
        after.lost_bytes.value is Some && after.lost_bytes.value->0 == stats.lost_bytes,
        after.sent_plpmtud_probes.value is Some && after.sent_plpmtud_probes.value->0
            == stats.sent_plpmtud_probes,
        after.lost_plpmtud_probes.value is Some && after.lost_plpmtud_probes.value->0
            == stats.lost_plpmtud_probes,
        after.black_holes_detected.value is Some && after.black_holes_detected.value->0
            == stats.black_holes_detected,
        after.current_mtu.value is Some && after.current_mtu.value->0 == stats.current_mtu,
        after.rtt.name == before.rtt.name && after.rtt.labels == before.rtt.labels,
        after.cwnd.name == before.cwnd.name && after.cwnd.labels == before.cwnd.labels,
        after.current_mtu.name == before.current_mtu.name && after.current_mtu.labels
            == before.current_mtu.labels,
{
}

/// The path whose statistics are recorded is the first one that is selected; the statistics of paths
/// that are not selected are never recorded.
pub proof fn the_first_selected_path_is_used(paths: Seq<Path>, i: int)
    requires
        0 <= i < paths.len(),
        paths[i].selected,
        forall|j: int| 0 <= j < i ==> !(#[trigger] paths[j]).selected,
    ensures
        used_path(paths) == paths[i].stats,
{
    first_is_found(paths, i);
}

/// If no path is selected, none is recorded.
pub proof fn no_path_is_used_unless_one_is_selected(paths: Seq<Path>)
    requires
        forall|j: int| 0 <= j < paths.len() ==> !(#[trigger] paths[j]).selected,
    ensures
        used_path(paths) is None,
{
    none_is_found(paths);
}

fn find_used_path(paths: &[Path]) -> (r: Option<PathStats>)
    ensures
        r == used_path(paths@),
{
    let mut i: usize = 0;
    while i < paths.len()
        invariant
            i <= paths.len(),
            forall|j: int| 0 <= j < i ==> !(#[trigger] paths@[j]).selected,
        decreases paths.len() - i,
    {
        if paths[i].selected {
            proof {
                first_is_found(paths@, i as int);
            }
            return paths[i].stats;
        }
        i = i + 1;
    }
    proof {
        none_is_found(paths@);
    }
    None
}

/// The statistics of the first path that is selected, if they are known.
pub open spec fn used_path(paths: Seq<Path>) -> Option<PathStats>
    decreases paths.len(),
{
    if paths.len() == 0 {
        None
    } else if paths[0].selected {
        paths[0].stats
    } else {
        used_path(paths.skip(1))
    }
}

proof fn first_is_found(paths: Seq<Path>, i: int)
    requires
        0 <= i < paths.len(),
        paths[i].selected,
        forall|j: int| 0 <= j < i ==> !(#[trigger] paths[j]).selected,
    ensures
        used_path(paths) == paths[i].stats,
    decreases i,
{
    if i > 0 {
        let rest = paths.skip(1);
        assert(!paths[0].selected);
        assert forall|j: int| 0 <= j < i - 1 implies !(#[trigger] rest[j]).selected by {
            assert(rest[j] == paths[j + 1]);
        }
        first_is_found(rest, i - 1);
    }
}

proof fn none_is_found(paths: Seq<Path>)
    requires
        forall|j: int| 0 <= j < paths.len() ==> !(#[trigger] paths[j]).selected,
    ensures
        used_path(paths) is None,
    decreases paths.len(),
{
    if paths.len() > 0 {
        let rest = paths.skip(1);
        assert forall|j: int| 0 <= j < rest.len() implies !(#[trigger] rest[j]).selected by {
            assert(rest[j] == paths[j + 1]);
        }
        none_is_found(rest);
    }
}

} // verus!
