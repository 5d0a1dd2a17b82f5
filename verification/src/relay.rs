//! Which peer a packet is relayed to.

use crate::error::{self, ExtractedErrorCode, IoFailure, Label, Status};
use crate::net::IpAddr;
use dashmap::DashMap;
use vstd::prelude::*;

verus! {

/// `dashmap::DashMap`.
#[verifier::external_type_specification]
#[verifier::external_body]
#[verifier::reject_recursive_types(K)]
#[verifier::reject_recursive_types(V)]
#[verifier::reject_recursive_types(S)]
pub struct ExDashMap<K, V, S>(dashmap::DashMap<K, V, S>);

/// What a map holds.
pub uninterp spec fn entries(map: DashMap<(u8, u128), u64>) -> Map<(u8, u128), u64>;

/// Calls `DashMap::new`: the map is empty.
#[verifier::external_body]
fn new_map() -> (r: DashMap<(u8, u128), u64>)
    ensures
        forall|key: (u8, u128)| !(#[trigger] entries(r).dom().contains(key)),
{
    DashMap::new()
}

/// Calls `DashMap::get_mut`: it finds the value of the key, if the key is in the map.
#[verifier::external_body]
fn map_get(map: &DashMap<(u8, u128), u64>, key: (u8, u128)) -> (r: Option<u64>)
    ensures
        r is Some <==> entries(*map).dom().contains(key),
        r is Some ==> r->0 == entries(*map)[key],
{
    map.get_mut(&key).map(|entry| *entry.value())
}

/// Calls `DashMap::insert`: the key has the value, whether it was in the map or not, and all other
/// keys are as before.
#[verifier::external_body]
fn map_insert(map: &mut DashMap<(u8, u128), u64>, key: (u8, u128), value: u64)
    ensures
        entries(*final(map)) == entries(*old(map)).insert(key, value),
{
    map.insert(key, value);
}

/// Calls `DashMap::remove`: the key is not in the map, and all other keys are as before.
#[verifier::external_body]
fn map_remove(map: &mut DashMap<(u8, u128), u64>, key: (u8, u128))
    ensures
        entries(*final(map)) == entries(*old(map)).remove(key),
{
    map.remove(&key);
}

/// The value to relay packets to.
#[derive(Debug)]
pub struct PeerValue<T>(pub T);

impl<T: Clone> Clone for PeerValue<T> {
    fn clone(&self) -> (r: PeerValue<T>)
        ensures
            cloned(self.0, r.0),
    {
        PeerValue(self.0.clone())
    }
}

/// Keeps a list of values (peers) in a sharded map indexed by their addresses. Peers are told apart
/// by numbers.
#[derive(Debug)]
pub struct Relay {
    peer_map: DashMap<(u8, u128), u64>,
}

/// Why routes to a peer could not be inserted, and what is to be done about it.
pub struct InsertFailure {
    pub status: Status,
    /// The labels under which the failure is counted.
    pub labels: Vec<Label>,
    /// The addresses whose routes are to be removed from the routing table, be they in it or not.
    pub remove_routes: Vec<IpAddr>,
}

/// The key under which an address is kept: its version and its number.
pub open spec fn key_of(ip: IpAddr) -> (u8, u128) {
    match ip {
        IpAddr::V4(a) => (4, a as u128),
        IpAddr::V6(a) => (6, a),
    }
}

fn key(ip: &IpAddr) -> (r: (u8, u128))
    ensures
        r == key_of(*ip),
{
    match ip {
        IpAddr::V4(a) => (4, *a as u128),
        IpAddr::V6(a) => (6, *a),
    }
}

impl Relay {
    /// The peer that an address is bound to, if any.
    pub closed spec fn bound(self, ip: IpAddr) -> Option<u64> {
        if entries(self.peer_map).dom().contains(key_of(ip)) {
            Some(entries(self.peer_map)[key_of(ip)])
        } else {
            None
        }
    }

    /// Whether the given addresses are bound as told, and all others as before.
    pub open spec fn rebinds(
        before: Relay,
        ips: Seq<IpAddr>,
        value: Option<u64>,
        after: Relay,
    ) -> bool {
        forall|ip: IpAddr| #[trigger]
            after.bound(ip) == (if ips.contains(ip) {
                value
            } else {
                before.bound(ip)
            })
    }

    fn bind(&mut self, ip: &IpAddr, value: u64)
        ensures
            forall|other: IpAddr| #[trigger]
                final(self).bound(other) == (if other == *ip {
                    Some(value)
                } else {
                    old(self).bound(other)
                }),
    {
        map_insert(&mut self.peer_map, key(ip), value);
    }

    fn unbind(&mut self, ip: &IpAddr)
        ensures
            forall|other: IpAddr| #[trigger]
                final(self).bound(other) == (if other == *ip {
                    None
                } else {
                    old(self).bound(other)
                }),
    {
        map_remove(&mut self.peer_map, key(ip));
    }

    /// A relay that knows no peers.
    pub fn new() -> (r: Relay)
        ensures
            forall|ip: IpAddr| r.bound(ip) is None,
    {
        Relay { peer_map: new_map() }
    }

    /// Gives the peer that `dest_ip` is bound to, if any.
    pub fn get(&self, dest_ip: &IpAddr) -> (r: Option<u64>)
        ensures
            r == self.bound(*dest_ip),
    {
        map_get(&self.peer_map, key(dest_ip))
    }

    /// Binds addresses to a peer, given how inserting routes to all of them went. If it failed, none
    /// of the addresses is bound to any peer, and their routes are to be removed.
    pub fn insert(
        &mut self,
        dest_ips: &[IpAddr],
        value: PeerValue<u64>,
        routed: Result<(), IoFailure>,
    ) -> (r: Result<(), InsertFailure>)
        ensures
            routed is Ok <==> r is Ok,
            forall|ip: IpAddr|
                !dest_ips@.contains(ip) ==> #[trigger] final(self).bound(ip) == old(self).bound(ip),
            forall|ip: IpAddr|
                dest_ips@.contains(ip) ==> #[trigger] final(self).bound(ip) == (if routed is Ok {
                    Some(value.0)
                } else {
                    None
                }),
            r is Ok ==> Self::rebinds(*old(self), dest_ips@, Some(value.0), *final(self)),
            r is Err ==> {
                &&& Self::rebinds(*old(self), dest_ips@, None, *final(self))
                &&& r->Err_0.status.is(
                    error::kind_code(routed->Err_0.kind),
                    routed->Err_0.message@,
                )
                &&& r->Err_0.labels@.len() == 2
                &&& r->Err_0.labels@[0].is(
                    "ERROR_CODE"@,
                    error::code_name(error::kind_code(routed->Err_0.kind)),
                )
                &&& r->Err_0.labels@[1].is("ERROR_KIND"@, error::kind_name(routed->Err_0.kind))
                &&& r->Err_0.remove_routes@ == dest_ips@
            },
    {
        match routed {
            Ok(()) => {
                let mut i: usize = 0;
                while i < dest_ips.len()
                    invariant
                        i <= dest_ips.len(),
                        Self::rebinds(
                            *old(self),
                            dest_ips@.take(i as int),
                            Some(value.0),
                            *self,
                        ),
                    decreases dest_ips.len() - i,
                {
                    let ghost before = *self;
                    self.bind(&dest_ips[i], value.0);
                    proof {
                        taken_with_one_more(dest_ips@, i as int);
                        assert forall|ip: IpAddr| #[trigger]
                            self.bound(ip) == (if dest_ips@.take(i + 1).contains(ip) {
                                Some(value.0)
                            } else {
                                old(self).bound(ip)
                            }) by {
                            assert(before.bound(ip) == before.bound(ip));
                        }
                    }
                    i = i + 1;
                }
                assert(dest_ips@.take(i as int) == dest_ips@);
                Ok(())
            },
            Err(failure) => {
                let remove_routes = self.remove(dest_ips);
                let labels = ExtractedErrorCode::from_io(&failure).into_labels();
                let status = Status::from_io(&failure);
                Err(InsertFailure { status, labels, remove_routes })
            },
        }
    }

    /// Unbinds addresses. Gives the addresses whose routes are to be removed from the routing table
    /// then, be they in it or not: all of them, in order.
    pub fn remove(&mut self, dest_ips: &[IpAddr]) -> (r: Vec<IpAddr>)
        ensures
            Self::rebinds(*old(self), dest_ips@, None, *final(self)),
            forall|ip: IpAddr|
                !dest_ips@.contains(ip) ==> #[trigger] final(self).bound(ip) == old(self).bound(ip),
            forall|ip: IpAddr|
                dest_ips@.contains(ip) ==> #[trigger] final(self).bound(ip) == None::<u64>,
            r@ == dest_ips@,
    {
        let mut i: usize = 0;
        while i < dest_ips.len()
            invariant
                i <= dest_ips.len(),
                Self::rebinds(*old(self), dest_ips@.take(i as int), None, *self),
            decreases dest_ips.len() - i,
        {
            let ghost before = *self;
            self.unbind(&dest_ips[i]);
            proof {
                taken_with_one_more(dest_ips@, i as int);
                assert forall|ip: IpAddr| #[trigger]
                    self.bound(ip) == (if dest_ips@.take(i + 1).contains(ip) {
                        None
                    } else {
                        old(self).bound(ip)
                    }) by {
                    assert(before.bound(ip) == before.bound(ip));
                }
            }
            i = i + 1;
        }
        assert(dest_ips@.take(i as int) == dest_ips@);
        vstd::slice::slice_to_vec(dest_ips)
    }
}

/// What the first `i + 1` items of a sequence hold.
proof fn taken_with_one_more(s: Seq<IpAddr>, i: int)
    requires
        0 <= i < s.len(),
    ensures
        forall|ip: IpAddr| #[trigger]
            s.take(i + 1).contains(ip) <==> s.take(i).contains(ip) || ip == s[i],
{
    let more = s.take(i + 1);
    assert(more == s.take(i).push(s[i]));
    assert forall|ip: IpAddr| #[trigger] more.contains(ip) <==> s.take(i).contains(ip) || ip
        == s[i] by {
        if more.contains(ip) {
            let j = choose|j: int| 0 <= j < more.len() && more[j] == ip;
            assert(j < i ==> s.take(i)[j] == ip);
        } else if s.take(i).contains(ip) {
            let j = choose|j: int| 0 <= j < i && s.take(i)[j] == ip;
            assert(more[j] == ip);
        } else if ip == s[i] {
            assert(more[i] == ip);
        }
    }
}

/// Different addresses are kept under different keys, of whichever version they are.
pub proof fn addresses_have_their_own_keys(a: IpAddr, b: IpAddr)
    ensures
        key_of(a) == key_of(b) <==> a == b,
{
}

/// A read gives back what the last write wrote: each address that was written is bound as written, and
/// all others are bound as before.
pub proof fn reads_give_back_writes(
    before: Relay,
    ips: Seq<IpAddr>,
    value: Option<u64>,
    after: Relay,
    ip: IpAddr,
)
    requires
        Relay::rebinds(before, ips, value, after),
    ensures
        ips.contains(ip) ==> after.bound(ip) == value,
        !ips.contains(ip) ==> after.bound(ip) == before.bound(ip),
{
}

/// Removing addresses that were unbound before they were inserted brings back the bindings there
/// were.
pub proof fn removing_undoes_inserting(
    before: Relay,
    ips: Seq<IpAddr>,
    value: u64,
    inserted: Relay,
    removed: Relay,
)
    requires
        forall|i: int| 0 <= i < ips.len() ==> before.bound(#[trigger] ips[i]) is None,
        Relay::rebinds(before, ips, Some(value), inserted),
        Relay::rebinds(inserted, ips, None, removed),
    ensures
        forall|ip: IpAddr| #[trigger] removed.bound(ip) == before.bound(ip),
{
    assert forall|ip: IpAddr| #[trigger] removed.bound(ip) == before.bound(ip) by {
        assert(inserted.bound(ip) == inserted.bound(ip));
    }
}

/// Inserting addresses a second time binds them to the second peer.
pub proof fn the_last_insertion_counts(
    before: Relay,
    ips: Seq<IpAddr>,
    first: u64,
    second: u64,
    once: Relay,
    twice: Relay,
)
    requires
        Relay::rebinds(before, ips, Some(first), once),
        Relay::rebinds(once, ips, Some(second), twice),
    ensures
        Relay::rebinds(before, ips, Some(second), twice),
{
    assert forall|ip: IpAddr| #[trigger]
        twice.bound(ip) == (if ips.contains(ip) {
            Some(second)
        } else {
            before.bound(ip)
        }) by {
        assert(once.bound(ip) == once.bound(ip));
    }
}

} // verus!
