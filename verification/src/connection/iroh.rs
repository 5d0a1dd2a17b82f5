//! What is known of an iroh connection, and of the endpoints that it connects.

use super::actor::{Direction, ManagedConnection};
use crate::net;
use vstd::prelude::*;

verus! {

/// Identifies an endpoint: the bytes of its public key.
pub type EndpointId = [u8; 32];

/// The role of the local endpoint in a connection.
#[derive(Clone, Copy, Debug, PartialEq, Eq, Structural)]
pub enum Side {
    /// It opened the connection.
    Client,
    /// It accepted the connection.
    Server,
}

/// A connection between the local endpoint and another one.
#[derive(Clone, Copy, Debug)]
pub struct IrohConnection {
    /// Stays the same while the connection lives, and differs from that of any other connection
    /// that lives.
    pub stable_id: usize,
    pub side: Side,
    /// The other endpoint.
    pub remote_id: EndpointId,
}

/// If two strings of bytes are equal up to some place, and the first one has the greater byte there,
/// it stands for the greater number.
proof fn first_difference_decides(a: Seq<u8>, b: Seq<u8>, at: int)
    requires
        a.len() == b.len(),
        0 <= at < a.len(),
        a.take(at) == b.take(at),
        a[at] > b[at],
    ensures
        net::be_value(a) > net::be_value(b),
    decreases a.len(),
{
    let a0 = a.drop_last();
    let b0 = b.drop_last();
    if at == a.len() - 1 {
        assert(a0 == a.take(at));
        assert(b0 == b.take(at));
    } else {
        assert(a0.take(at) == a.take(at));
        assert(b0.take(at) == b.take(at));
        first_difference_decides(a0, b0, at);
    }
}

/// Tells whether the first identifier is greater than the second one. They are compared byte by
/// byte, from the first one on.
pub fn endpoint_above(a: &EndpointId, b: &EndpointId) -> (r: bool)
    ensures
        r <==> net::be_value(a@) > net::be_value(b@),
{
    let mut i: usize = 0;
    while i < 32
        invariant
            i <= 32,
            a@.take(i as int) == b@.take(i as int),
        decreases 32 - i,
    {
        if a[i] > b[i] {
            proof {
                first_difference_decides(a@, b@, i as int);
            }
            return true;
        }
        if b[i] > a[i] {
            proof {
                first_difference_decides(b@, a@, i as int);
            }
            return false;
        }
        assert(a@.take(i + 1) == a@.take(i as int).push(a@[i as int]));
        assert(b@.take(i + 1) == b@.take(i as int).push(b@[i as int]));
        i = i + 1;
    }
    assert(a@.take(32) == a@);
    assert(b@.take(32) == b@);
    false
}

/// Tells whether two identifiers are the same.
pub fn same_endpoint(a: &EndpointId, b: &EndpointId) -> (r: bool)
    ensures
        r <==> a@ == b@,
{
    proof {
        if net::be_value(a@) == net::be_value(b@) {
            net::be_value_is_injective(a@, b@);
        }
    }
    !endpoint_above(a, b) && !endpoint_above(b, a)
}

impl ManagedConnection for IrohConnection {
    type Key = EndpointId;

    type ConnectionId = usize;

    open spec fn side(self) -> Direction {
        match self.side {
            Side::Client => Direction::Outgoing,
            Side::Server => Direction::Incoming,
        }
    }

    open spec fn has_id(self, id: usize) -> bool {
        self.stable_id == id
    }

    open spec fn above(a: EndpointId, b: EndpointId) -> bool {
        net::be_value(a@) > net::be_value(b@)
    }

    proof fn keys_are_ordered(a: EndpointId, b: EndpointId) {
        if net::be_value(a@) == net::be_value(b@) {
            net::be_value_is_injective(a@, b@);
            assert(a =~= b);
        }
    }

    fn direction(&self) -> (r: Direction)
        ensures
            r is Outgoing <==> self.side is Client,
    {
        match self.side {
            Side::Client => Direction::Outgoing,
            Side::Server => Direction::Incoming,
        }
    }

    fn is_identified_by(&self, id: &usize) -> (r: bool)
        ensures
            r <==> self.stable_id == *id,
    {
        self.stable_id == *id
    }

    fn key_above(a: &EndpointId, b: &EndpointId) -> (r: bool) {
        endpoint_above(a, b)
    }
}

/// The connections that the local endpoint opened are the outgoing ones, and a connection is told by
/// its number alone.
pub proof fn connections_are_told_by_side_and_number(conn: IrohConnection, id: usize)
    ensures
        ManagedConnection::side(conn) is Outgoing <==> conn.side is Client,
        ManagedConnection::side(conn) is Incoming <==> conn.side is Server,
        conn.has_id(id) <==> conn.stable_id == id,
{
}

/// Keys are compared byte by byte: one is greater than another exactly if it has the greater byte at
/// the first place where they differ.
pub proof fn the_first_difference_orders_keys(a: EndpointId, b: EndpointId, at: int)
    requires
        0 <= at < 32,
        a@.take(at) == b@.take(at),
        a@[at] != b@[at],
    ensures
        IrohConnection::above(a, b) <==> a@[at] > b@[at],
{
    if a@[at] > b@[at] {
        first_difference_decides(a@, b@, at);
    } else {
        first_difference_decides(b@, a@, at);
    }
}

/// What it takes to open a connection to a peer.
#[derive(Clone, Debug)]
pub struct IrohConnector {
    pub local: EndpointId,
    pub peer: EndpointId,
    pub alpn: Vec<u8>,
}

} // verus!
