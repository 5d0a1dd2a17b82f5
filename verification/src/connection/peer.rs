//! The link to a peer: a loop that opens connections, and an actor that keeps one of them.

use super::actor::{Actor, Direction};
use super::connect::OutgoingConnectLoop;
use super::iroh::{same_endpoint, EndpointId, IrohConnection, IrohConnector};
use crate::error::{await_loop_result, check_eq, JoinError, Status};
use crate::{error, net};
use thin_status::ErrorCode;
use vstd::prelude::*;

verus! {

/// A link that was not started.
#[derive(Debug)]
pub struct PeerLink {
    connector: IrohConnector,
}

impl PeerLink {
    /// What it takes to open a connection to the peer.
    pub closed spec fn connects(self) -> IrohConnector {
        self.connector
    }

    pub fn new(connector: IrohConnector) -> (r: PeerLink)
        ensures
            r.connects() == connector,
    {
        PeerLink { connector }
    }

    /// Makes what the tasks of the link run on: the actor that keeps the current connection, at
    /// first none, and the loop that opens connections.
    pub fn spawn(self) -> (r: (PeerLinkHandle, Actor<IrohConnection>, OutgoingConnectLoop))
        ensures
            r.0.connector == self.connects(),
            r.1.prefers() == (if net::be_value(self.connects().local@) > net::be_value(
                self.connects().peer@,
            ) {
                Direction::Outgoing
            } else {
                Direction::Incoming
            }),
            r.1.prefers() is Outgoing <==> net::be_value(self.connects().local@) > net::be_value(
                self.connects().peer@,
            ),
            r.1.holds() is None,
            r.2.state is Idle,
    {
        let actor = Actor::new(self.connector.local, self.connector.peer, None);
        let outgoing = OutgoingConnectLoop::new();
        (PeerLinkHandle { connector: self.connector }, actor, outgoing)
    }
}

/// Tells whether a link is to wait for its actor, from how its loop has ended: a link whose loop has
/// failed has ended. That the loop was cancelled is no failure.
pub fn waits_for_actor(outgoing: &Result<Result<(), Status>, JoinError>) -> (r: bool)
    ensures
        r <==> failure(*outgoing) is None,
{
    match outgoing {
        Ok(Ok(())) => true,
        Ok(Err(status)) => matches!(status.code(), Some(ErrorCode::Cancelled)),
        Err(join) => join.cancelled,
    }
}

/// Tells how a link has ended, from how its loop and then its actor have. That either was cancelled
/// is no error, and how the actor has ended only matters if the loop has not failed: it need not be
/// known if it has.
pub fn link_result(
    outgoing: Result<Result<(), Status>, JoinError>,
    actor: Option<Result<Result<(), Status>, JoinError>>,
) -> (r: Result<(), Status>)
    requires
        failure(outgoing) is None ==> actor is Some,
    ensures
        failure(outgoing) is Some ==> r is Err && says(r->Err_0, failure(outgoing)->0),
        failure(outgoing) is None && failure(actor->0) is Some ==> r is Err && says(
            r->Err_0,
            failure(actor->0)->0,
        ),
        failure(outgoing) is None && failure(actor->0) is None ==> r is Ok,
        outgoing is Ok && outgoing->Ok_0 is Err && outgoing->Ok_0->Err_0.code != 1 ==> r is Err
            && r->Err_0.code == outgoing->Ok_0->Err_0.code && r->Err_0.message@
            == outgoing->Ok_0->Err_0.message@,
{
    match await_loop_result(outgoing) {
        Ok(()) => await_loop_result(actor.unwrap()),
        Err(status) => Err(status),
    }
}

/// The number and the message of the error with which a task has ended, if it has failed.
pub open spec fn failure(joined: Result<Result<(), Status>, JoinError>) -> Option<
    (i32, Seq<char>),
> {
    match joined {
        Ok(Ok(_)) => None,
        Ok(Err(status)) => if status.is_cancelled() {
            None
        } else {
            Some((status.code, status.message@))
        },
        Err(join) => if join.cancelled {
            None
        } else {
            Some((error::code_number(ErrorCode::Internal), join.message@))
        },
    }
}

/// A task has failed exactly if it gave an error other than that it was cancelled, or did not return
/// although it was not cancelled; what is told is the error that it gave, or `INTERNAL` with the reason
/// why it did not return.
pub proof fn only_cancellations_are_no_failures(joined: Result<Result<(), Status>, JoinError>)
    ensures
        joined is Ok && joined->Ok_0 is Ok ==> failure(joined) is None,
        joined is Ok && joined->Ok_0 is Err ==> (failure(joined) is None
            <==> joined->Ok_0->Err_0.code == 1),
        joined is Ok && joined->Ok_0 is Err && failure(joined) is Some ==> failure(joined) == Some(
            (joined->Ok_0->Err_0.code, joined->Ok_0->Err_0.message@),
        ),
        joined is Err ==> (failure(joined) is None <==> joined->Err_0.cancelled),
        joined is Err && failure(joined) is Some ==> failure(joined) == Some(
            (13i32, joined->Err_0.message@),
        ),
{
}

/// Whether a status has the given number and message.
pub open spec fn says(status: Status, failure: (i32, Seq<char>)) -> bool {
    status.code == failure.0 && status.message@ == failure.1
}

/// A link that was started.
#[derive(Clone, Debug)]
pub struct PeerLinkHandle {
    pub connector: IrohConnector,
}

impl PeerLinkHandle {
    /// Gives what accepts incoming connections of the peer.
    pub fn incoming_receiver(&self) -> (r: IncomingReceiver)
        ensures
            r.accepts_from() == self.connector.peer,
    {
        IncomingReceiver { peer_id: self.connector.peer }
    }
}

/// Accepts incoming connections of one peer.
#[derive(Debug)]
pub struct IncomingReceiver {
    peer_id: EndpointId,
}

/// What becomes of an incoming connection, given what the queue of the link says to it.
pub open spec fn admits(
    peer: EndpointId,
    conn: IrohConnection,
    queued: Result<(), String>,
    r: Result<(), Status>,
) -> bool {
    if conn.remote_id@ != peer@ {
        r is Err && r->Err_0.is(
            ErrorCode::InvalidArgument,
            error::not_equal_message("conn.conn.remote_id()"@, "self.peer_id"@)
                + "; remote peer address doesn't match the configured one"@,
        )
    } else {
        match queued {
            Ok(_) => r is Ok,
            Err(reason) => r is Err && r->Err_0.is(ErrorCode::FailedPrecondition, reason@),
        }
    }
}

/// An incoming connection is admitted exactly if it comes from the peer and the queue took it, and
/// whatever the queue says, never if it comes from another peer. The status of a refusal is
/// `INVALID_ARGUMENT` for another peer, and `FAILED_PRECONDITION` with the reason of a closed queue.
pub proof fn only_the_peer_is_admitted(
    peer: EndpointId,
    conn: IrohConnection,
    queued: Result<(), String>,
    r: Result<(), Status>,
)
    requires
        admits(peer, conn, queued, r),
    ensures
        r is Ok <==> conn.remote_id@ == peer@ && queued is Ok,
        r is Err && conn.remote_id@ != peer@ ==> r->Err_0.code == 3,
        r is Err && conn.remote_id@ == peer@ ==> r->Err_0.code == 9 && r->Err_0.message@
            == queued->Err_0@,
{
}

impl IncomingReceiver {
    /// The peer whose connections are accepted.
    pub closed spec fn accepts_from(self) -> EndpointId {
        self.peer_id
    }

    /// Checks that a connection comes from the peer. If it does not, the connection is to be closed
    /// with the status.
    pub fn check(&self, conn: &IrohConnection) -> (r: Result<(), Status>)
        ensures
            r is Ok <==> conn.remote_id@ == self.accepts_from()@,
            r is Err ==> r->Err_0.is(
                ErrorCode::InvalidArgument,
                error::not_equal_message("conn.conn.remote_id()"@, "self.peer_id"@)
                    + "; remote peer address doesn't match the configured one"@,
            ),
    {
        match check_eq(
            same_endpoint(&conn.remote_id, &self.peer_id),
            "conn.conn.remote_id()",
            "self.peer_id",
        ) {
            Ok(()) => Ok(()),
            Err(status) => {
                let mut message = status.message;
                message.append("; remote peer address doesn't match the configured one");
                Err(Status::new(ErrorCode::InvalidArgument, message))
            },
        }
    }

    /// Accepts a connection, given what the queue of the link says to it. The queue only counts for
    /// a connection that comes from the peer: it took the connection, or is closed with the reason
    /// given.
    pub fn send(&self, conn: &IrohConnection, queued: Result<(), String>) -> (r: Result<(), Status>)
        ensures
            admits(self.accepts_from(), *conn, queued, r),
            r is Ok <==> conn.remote_id@ == self.accepts_from()@ && queued is Ok,
            conn.remote_id@ != self.accepts_from()@ ==> r->Err_0.is(
                ErrorCode::InvalidArgument,
                error::not_equal_message("conn.conn.remote_id()"@, "self.peer_id"@)
                    + "; remote peer address doesn't match the configured one"@,
            ),
            conn.remote_id@ == self.accepts_from()@ && queued is Err ==> r->Err_0.is(
                ErrorCode::FailedPrecondition,
                queued->Err_0@,
            ),
    {
        match self.check(conn) {
            Err(status) => Err(status),
            Ok(()) => match queued {
                Ok(()) => Ok(()),
                Err(reason) => Err(Status::new(ErrorCode::FailedPrecondition, reason)),
            },
        }
    }
}

} // verus!
