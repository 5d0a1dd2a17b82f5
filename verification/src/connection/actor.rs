//! Choosing one connection among those that two peers open to each other.
//!
//! Two peers may connect to each other at the same time. Each of them then sees an incoming and an
//! outgoing connection, and both have to keep the same one. Which one that is follows from the
//! order of their keys.

use crate::error::Status;
use thin_status::ErrorCode;
use vstd::prelude::*;

verus! {

/// Which side opened a connection.
#[derive(Clone, Copy, Debug, Hash, PartialEq, Eq, PartialOrd, Ord, Structural)]
pub enum Direction {
    Incoming,
    Outgoing,
}

impl Direction {
    /// What the other peer sees.
    pub open spec fn opposite(self) -> Direction {
        match self {
            Direction::Incoming => Direction::Outgoing,
            Direction::Outgoing => Direction::Incoming,
        }
    }
}

/// What the actor needs to know of a connection.
pub trait ManagedConnection: Sized {
    /// Tells peers apart.
    type Key;

    /// Tells whether a connection that was closed is the current one.
    type ConnectionId;

    /// The direction of this connection.
    spec fn side(self) -> Direction;

    /// Whether an identifier is that of this connection.
    spec fn has_id(self, id: Self::ConnectionId) -> bool;

    /// Whether one key is greater than another.
    spec fn above(a: Self::Key, b: Self::Key) -> bool;

    /// Of two different keys exactly one is greater, and no key is greater than itself.
    proof fn keys_are_ordered(a: Self::Key, b: Self::Key)
        ensures
            a == b ==> !Self::above(a, b),
            a != b ==> (Self::above(a, b) <==> !Self::above(b, a)),
    ;

    /// Whether this connection is incoming or outgoing.
    fn direction(&self) -> (r: Direction)
        ensures
            r == self.side(),
    ;

    /// Tells whether `id` is the identifier of this connection.
    fn is_identified_by(&self, id: &Self::ConnectionId) -> (r: bool)
        ensures
            r <==> self.has_id(*id),
    ;

    /// Tells whether `a` is greater than `b`.
    fn key_above(a: &Self::Key, b: &Self::Key) -> (r: bool)
        ensures
            r <==> Self::above(*a, *b),
    ;
}

/// The direction that a peer prefers: the connections that the peer with the greater key opened.
pub open spec fn preference<C: ManagedConnection>(local: C::Key, remote: C::Key) -> Direction {
    if C::above(local, remote) {
        Direction::Outgoing
    } else {
        Direction::Incoming
    }
}

/// The connection that is current after a candidate was offered: the candidate, unless there is a
/// connection already and the candidate is not of the preferred direction.
pub open spec fn current_after_one<C: ManagedConnection>(
    preferred: Direction,
    current: Option<C>,
    candidate: C,
) -> Option<C> {
    if current is Some && candidate.side() != preferred {
        current
    } else {
        Some(candidate)
    }
}

/// The connection that is current after candidates were offered one by one.
pub open spec fn current_after<C: ManagedConnection>(
    preferred: Direction,
    current: Option<C>,
    candidates: Seq<C>,
) -> Option<C>
    decreases candidates.len(),
{
    if candidates.len() == 0 {
        current
    } else {
        current_after_one(
            preferred,
            current_after(preferred, current, candidates.drop_last()),
            candidates.last(),
        )
    }
}

/// What the program around the actor reports.
#[derive(Debug)]
pub enum ActorEvent<C, I> {
    Cancelled,
    /// No more connections will be submitted.
    QueueClosed,
    /// A connection was submitted, be it incoming or outgoing.
    Candidate(C),
    /// The connection with this identifier was closed.
    Closed(I),
}

/// What the program around the actor is to do next.
#[derive(Debug)]
pub enum ActorAction<C> {
    /// Close the connection that was submitted, with the status.
    Reject(C, Status),
    /// The connection that was submitted is current now: have its end reported, and tell those who
    /// watch for the current connection. Then close the connection that it has replaced.
    Install(Option<(C, Status)>),
    /// There is no current connection any more: tell those who watch for it.
    Clear,
    /// Nothing has changed.
    Ignore,
    /// End with the status. If there was a current connection, close it with the same status.
    Exit(Option<C>, Status),
}

/// Whether a connection is closed with the given code and message.
pub open spec fn closes<C>(closed: (C, Status), conn: C, code: ErrorCode, message: Seq<char>) -> bool {
    closed.0 == conn && closed.1.is(code, message)
}

/// Keeps the current connection to a peer.
#[derive(Debug)]
pub struct Actor<C> {
    preferred: Direction,
    current: Option<C>,
}

impl<C> Actor<C> {
    /// The direction that wins over the other one.
    pub closed spec fn prefers(self) -> Direction {
        self.preferred
    }

    /// The current connection, if there is one.
    pub closed spec fn holds(self) -> Option<C> {
        self.current
    }

    /// Gives the current connection, if there is one.
    pub fn current(&self) -> (r: &Option<C>)
        ensures
            *r == self.holds(),
    {
        &self.current
    }
}

impl<C: ManagedConnection> Actor<C> {
    /// Creates a new instance that starts with the given connection, if any.
    pub fn new(local_key: C::Key, remote_key: C::Key, current: Option<C>) -> (r: Actor<C>)
        ensures
            r.prefers() == preference::<C>(local_key, remote_key),
            r.prefers() is Outgoing <==> C::above(local_key, remote_key),
            r.holds() == current,
    {
        let preferred = if C::key_above(&local_key, &remote_key) {
            Direction::Outgoing
        } else {
            Direction::Incoming
        };
        Actor { preferred, current }
    }

    /// What `step` does with an event.
    pub open spec fn steps(
        before: Actor<C>,
        event: ActorEvent<C, C::ConnectionId>,
        after: Actor<C>,
        action: ActorAction<C>,
    ) -> bool {
        &&& after.prefers() == before.prefers()
        &&& match event {
            ActorEvent::Cancelled => Self::exits(
                before,
                after,
                action,
                ErrorCode::Cancelled,
                ""@,
            ),
            ActorEvent::QueueClosed => Self::exits(
                before,
                after,
                action,
                ErrorCode::FailedPrecondition,
                "Incoming connection queue closed"@,
            ),
            ActorEvent::Candidate(conn) => Self::decides(before, conn, after, action),
            ActorEvent::Closed(id) => Self::forgets(before, id, after, action),
        }
    }

    /// The actor ends: it gives up its connection, to be closed with the status.
    pub open spec fn exits(
        before: Actor<C>,
        after: Actor<C>,
        action: ActorAction<C>,
        code: ErrorCode,
        message: Seq<char>,
    ) -> bool {
        &&& after.holds() is None
        &&& action is Exit
        &&& action->Exit_0 == before.holds()
        &&& action->Exit_1.is(code, message)
    }

    /// A candidate is installed or rejected.
    pub open spec fn decides(
        before: Actor<C>,
        conn: C,
        after: Actor<C>,
        action: ActorAction<C>,
    ) -> bool {
        &&& after.holds() == current_after_one(before.prefers(), before.holds(), conn)
        &&& if before.holds() is Some && conn.side() != before.prefers() {
            action is Reject && closes(
                (action->Reject_0, action->Reject_1),
                conn,
                ErrorCode::Aborted,
                "Rejected by deterministic preference rule"@,
            )
        } else {
            &&& action is Install
            &&& action->Install_0 is Some <==> before.holds() is Some
            &&& before.holds() is Some ==> closes(
                action->Install_0->0,
                before.holds()->0,
                ErrorCode::Aborted,
                "Replaced by new connection following deterministic preference rule"@,
            )
        }
    }

    /// A connection that was closed is forgotten if it is the current one.
    pub open spec fn forgets(
        before: Actor<C>,
        id: C::ConnectionId,
        after: Actor<C>,
        action: ActorAction<C>,
    ) -> bool {
        if before.holds() is Some && before.holds()->0.has_id(id) {
            after.holds() is None && action is Clear
        } else {
            after.holds() == before.holds() && action is Ignore
        }
    }

    /// Takes an event and says what to do next.
    pub fn step(&mut self, event: ActorEvent<C, C::ConnectionId>) -> (r: ActorAction<C>)
        ensures
            Self::steps(*old(self), event, *final(self), r),
    {
        match event {
            ActorEvent::Cancelled => self.shut_down(Status::new(ErrorCode::Cancelled, "".to_owned())),
            ActorEvent::QueueClosed => self.shut_down(
                Status::new(
                    ErrorCode::FailedPrecondition,
                    "Incoming connection queue closed".to_owned(),
                ),
            ),
            ActorEvent::Candidate(conn) => self.handle_connection_candidate(conn),
            ActorEvent::Closed(id) => self.handle_connection_closed(id),
        }
    }

    fn shut_down(&mut self, status: Status) -> (r: ActorAction<C>)
        ensures
            final(self).prefers() == old(self).prefers(),
            final(self).holds() is None,
            r == ActorAction::Exit(old(self).holds(), status),
    {
        let closing = self.current.take();
        ActorAction::Exit(closing, status)
    }

    /// Installs a connection, unless there is one already and the new one is not of the preferred
    /// direction.
    pub fn handle_connection_candidate(&mut self, new_conn: C) -> (r: ActorAction<C>)
        ensures
            final(self).prefers() == old(self).prefers(),
            Self::decides(*old(self), new_conn, *final(self), r),
            r is Reject <==> old(self).holds() is Some && new_conn.side() != old(self).prefers(),
            r is Install <==> !(r is Reject),
            r is Reject ==> r->Reject_0 == new_conn && final(self).holds() == old(self).holds(),
            r is Install ==> final(self).holds() == Some(new_conn),
    {
        if self.current.is_some() && new_conn.direction() != self.preferred {
            return ActorAction::Reject(
                new_conn,
                Status::new(
                    ErrorCode::Aborted,
                    "Rejected by deterministic preference rule".to_owned(),
                ),
            );
        }
        let replaced = self.current.take();
        self.current = Some(new_conn);
        match replaced {
            Some(old_conn) => ActorAction::Install(
                Some(
                    (
                        old_conn,
                        Status::new(
                            ErrorCode::Aborted,
                            "Replaced by new connection following deterministic preference rule".to_owned(),
                        ),
                    ),
                ),
            ),
            None => ActorAction::Install(None),
        }
    }

    /// Forgets the current connection if it is the one that was closed.
    pub fn handle_connection_closed(&mut self, closed_conn_id: C::ConnectionId) -> (r: ActorAction<
        C,
    >)
        ensures
            final(self).prefers() == old(self).prefers(),
            Self::forgets(*old(self), closed_conn_id, *final(self), r),
            r is Clear <==> old(self).holds() is Some && old(self).holds()->0.has_id(closed_conn_id),
            r is Ignore <==> !(r is Clear),
            r is Clear ==> final(self).holds() is None,
            r is Ignore ==> final(self).holds() == old(self).holds(),
    {
        let matching = match &self.current {
            Some(active) => active.is_identified_by(&closed_conn_id),
            None => false,
        };
        if matching {
            self.current = None;
            ActorAction::Clear
        } else {
            ActorAction::Ignore
        }
    }
}

/// Whether an actor goes through states as events happen, and answers them with actions.
pub open spec fn runs<C: ManagedConnection>(
    states: Seq<Actor<C>>,
    events: Seq<ActorEvent<C, C::ConnectionId>>,
    actions: Seq<ActorAction<C>>,
) -> bool {
    &&& states.len() == events.len() + 1
    &&& actions.len() == events.len()
    &&& forall|i: int|
        0 <= i < events.len() ==> Actor::<C>::steps(
            states[i],
            #[trigger] events[i],
            states[i + 1],
            actions[i],
        )
}

/// A connection that was closed is forgotten if it is the current one, whatever its direction and
/// whatever the preference is, and those who watch are told. That any other connection was closed
/// changes nothing.
pub proof fn closed_connections_are_forgotten<C: ManagedConnection>(
    before: Actor<C>,
    id: C::ConnectionId,
    after: Actor<C>,
    action: ActorAction<C>,
)
    requires
        Actor::<C>::steps(before, ActorEvent::Closed(id), after, action),
    ensures
        after.prefers() == before.prefers(),
        before.holds() is Some && before.holds()->0.has_id(id) ==> after.holds() is None
            && action is Clear,
        before.holds() is Some && !before.holds()->0.has_id(id) ==> after.holds() == before.holds()
            && action is Ignore,
        before.holds() is None ==> after.holds() is None && action is Ignore,
        after.holds() matches Some(conn) ==> !conn.has_id(id),
{
}

/// The first connection is installed, whatever its direction. Later ones replace the current one if
/// they are of the preferred direction, and are closed if they are not. Of the two connections that
/// there are then, one is kept and the other one is closed, with the code `ABORTED`.
pub proof fn candidates_are_installed_or_closed<C: ManagedConnection>(
    before: Actor<C>,
    conn: C,
    after: Actor<C>,
    action: ActorAction<C>,
)
    requires
        Actor::<C>::steps(before, ActorEvent::Candidate(conn), after, action),
    ensures
        after.prefers() == before.prefers(),
        after.holds() is Some,
        before.holds() is None ==> after.holds() == Some(conn) && action == ActorAction::Install(
            None::<(C, Status)>,
        ),
        before.holds() is Some && conn.side() == before.prefers() ==> {
            &&& after.holds() == Some(conn)
            &&& action matches ActorAction::Install(Some((old, status)))
            &&& old == before.holds()->0
            &&& status.code == 10
            &&& status.message@
                == "Replaced by new connection following deterministic preference rule"@
        },
        before.holds() is Some && conn.side() != before.prefers() ==> {
            &&& after.holds() == before.holds()
            &&& action matches ActorAction::Reject(rejected, status)
            &&& rejected == conn
            &&& status.code == 10
            &&& status.message@ == "Rejected by deterministic preference rule"@
        },
{
}

/// The actor ends when it is cancelled and when no more connections will be submitted, and then only.
/// It gives up its connection, to be closed with the status with which it ends.
pub proof fn the_actor_ends_only_for_a_reason<C: ManagedConnection>(
    before: Actor<C>,
    event: ActorEvent<C, C::ConnectionId>,
    after: Actor<C>,
    action: ActorAction<C>,
)
    requires
        Actor::<C>::steps(before, event, after, action),
    ensures
        action is Exit <==> event is Cancelled || event is QueueClosed,
        action matches ActorAction::Exit(conn, status) ==> {
            &&& conn == before.holds()
            &&& after.holds() is None
            &&& event is Cancelled ==> status.code == 1 && status.message@ == ""@
            &&& event is QueueClosed ==> status.code == 9 && status.message@
                == "Incoming connection queue closed"@
        },
{
}

/// In any run, the current connection was there from the start, or was submitted at some time, and
/// since then it stayed the current one and was not reported to be closed. `from` is when that was.
pub proof fn the_current_connection_was_not_closed<C: ManagedConnection>(
    states: Seq<Actor<C>>,
    events: Seq<ActorEvent<C, C::ConnectionId>>,
    actions: Seq<ActorAction<C>>,
    conn: C,
) -> (from: int)
    requires
        runs(states, events, actions),
        states.last().holds() == Some(conn),
    ensures
        0 <= from <= events.len(),
        from > 0 ==> events[from - 1] == ActorEvent::<C, C::ConnectionId>::Candidate(conn),
        forall|i: int| from <= i < states.len() ==> (#[trigger] states[i]).holds() == Some(conn),
        forall|i: int, id: C::ConnectionId|
            from <= i < events.len() && #[trigger] conn.has_id(id) ==> #[trigger] events[i]
                != ActorEvent::<C, C::ConnectionId>::Closed(id),
    decreases events.len(),
{
    if events.len() == 0 {
        0
    } else {
        let n = events.len() - 1;
        assert(Actor::<C>::steps(states[n], events[n], states[n + 1], actions[n]));
        assert(states.last() == states[n + 1]);
        if events[n] == ActorEvent::<C, C::ConnectionId>::Candidate(conn) {
            events.len() as int
        } else {
            let (s, e, a) = (states.drop_last(), events.drop_last(), actions.drop_last());
            assert forall|i: int| 0 <= i < e.len() implies Actor::<C>::steps(
                s[i],
                #[trigger] e[i],
                s[i + 1],
                a[i],
            ) by {
                assert(e[i] == events[i]);
            }
            assert(s.last() == states[n]);
            let from = the_current_connection_was_not_closed(s, e, a, conn);
            assert forall|i: int| from <= i < states.len() implies (#[trigger] states[i]).holds()
                == Some(conn) by {
                if i < s.len() {
                    assert(s[i] == states[i]);
                }
            }
            assert forall|i: int, id: C::ConnectionId|
                from <= i < events.len() && #[trigger] conn.has_id(id) implies #[trigger] events[i]
                != ActorEvent::<C, C::ConnectionId>::Closed(id) by {
                if i < n {
                    assert(e[i] == events[i]);
                }
            }
            from
        }
    }
}

/// How many connections were submitted.
pub open spec fn submitted<C, I>(events: Seq<ActorEvent<C, I>>) -> nat
    decreases events.len(),
{
    if events.len() == 0 {
        0
    } else {
        submitted(events.drop_last()) + (if events.last() is Candidate {
            1nat
        } else {
            0
        })
    }
}

/// How many connections were given up: they are to be closed, or were closed already.
pub open spec fn given_up<C>(actions: Seq<ActorAction<C>>) -> nat
    decreases actions.len(),
{
    if actions.len() == 0 {
        0
    } else {
        given_up(actions.drop_last()) + (match actions.last() {
            ActorAction::Reject(_, _) => 1nat,
            ActorAction::Install(Some(_)) => 1,
            ActorAction::Clear => 1,
            ActorAction::Exit(Some(_), _) => 1,
            _ => 0,
        })
    }
}

/// How many connections are current: one or none.
pub open spec fn current_count<C>(actor: Actor<C>) -> nat {
    if actor.holds() is Some {
        1
    } else {
        0
    }
}

/// The actor loses no connection: each one that was submitted was given up or is the current one. So
/// after the actor has ended, all of them were given up.
pub proof fn no_connection_is_lost<C: ManagedConnection>(
    states: Seq<Actor<C>>,
    events: Seq<ActorEvent<C, C::ConnectionId>>,
    actions: Seq<ActorAction<C>>,
)
    requires
        runs(states, events, actions),
    ensures
        submitted(events) + current_count(states[0]) == given_up(actions) + current_count(
            states.last(),
        ),
        events.len() > 0 && actions.last() is Exit ==> submitted(events) + current_count(states[0])
            == given_up(actions),
    decreases events.len(),
{
    if events.len() > 0 {
        let n = events.len() - 1;
        let (s, e, a) = (states.drop_last(), events.drop_last(), actions.drop_last());
        assert forall|i: int| 0 <= i < e.len() implies Actor::<C>::steps(
            s[i],
            #[trigger] e[i],
            s[i + 1],
            a[i],
        ) by {
            assert(e[i] == events[i]);
        }
        no_connection_is_lost(s, e, a);
        assert(s.last() == states[n]);
        assert(Actor::<C>::steps(states[n], events[n], states[n + 1], actions[n]));
    }
}

/// A peer prefers the connections that it opens exactly if its key is the greater one.
pub proof fn the_greater_key_opens<C: ManagedConnection>(local: C::Key, remote: C::Key)
    ensures
        preference::<C>(local, remote) is Outgoing <==> C::above(local, remote),
        preference::<C>(local, remote) is Incoming <==> !C::above(local, remote),
{
}

/// Two peers with different keys prefer the same connections: those that are outgoing for one of
/// them and incoming for the other.
pub proof fn peers_agree_on_the_preference<C: ManagedConnection>(a: C::Key, b: C::Key)
    requires
        a != b,
    ensures
        preference::<C>(a, b) == preference::<C>(b, a).opposite(),
{
    C::keys_are_ordered(a, b);
}

/// Once a candidate of the preferred direction was offered, the last such candidate is the current
/// connection, whatever was current at first and whichever other candidates there were.
pub proof fn last_preferred_candidate_wins<C: ManagedConnection>(
    preferred: Direction,
    current: Option<C>,
    candidates: Seq<C>,
    last: int,
)
    requires
        0 <= last < candidates.len(),
        candidates[last].side() == preferred,
        forall|i: int| last < i < candidates.len() ==> (#[trigger] candidates[i]).side() != preferred,
    ensures
        current_after(preferred, current, candidates) == Some(candidates[last]),
    decreases candidates.len(),
{
    let before = candidates.drop_last();
    if last < candidates.len() - 1 {
        assert forall|i: int| last < i < before.len() implies (#[trigger] before[i]).side()
            != preferred by {
            assert(before[i] == candidates[i]);
        }
        last_preferred_candidate_wins(preferred, current, before, last);
        assert(candidates.last() == candidates[candidates.len() - 1]);
    }
}

/// Two peers that open connections to each other keep the same one. `at_a` are the connections as
/// the peer with the key `a` is offered them, `at_b` as the peer with the key `b` is; `i` and `j`
/// are the two ends of one connection, which is the last one of the direction that its end prefers.
pub proof fn peers_keep_the_same_connection<C: ManagedConnection>(
    a: C::Key,
    b: C::Key,
    at_a: Seq<C>,
    at_b: Seq<C>,
    i: int,
    j: int,
)
    requires
        a != b,
        0 <= i < at_a.len(),
        0 <= j < at_b.len(),
        at_a[i].side() == at_b[j].side().opposite(),
        at_a[i].side() == preference::<C>(a, b),
        forall|k: int| i < k < at_a.len() ==> (#[trigger] at_a[k]).side() != at_a[i].side(),
        forall|k: int| j < k < at_b.len() ==> (#[trigger] at_b[k]).side() != at_b[j].side(),
    ensures
        current_after(preference::<C>(a, b), None::<C>, at_a) == Some(at_a[i]),
        current_after(preference::<C>(b, a), None::<C>, at_b) == Some(at_b[j]),
{
    peers_agree_on_the_preference::<C>(a, b);
    last_preferred_candidate_wins(preference::<C>(a, b), None::<C>, at_a, i);
    last_preferred_candidate_wins(preference::<C>(b, a), None::<C>, at_b, j);
}

/// While no candidate of the preferred direction was offered, the first candidate is the current
/// connection, provided that there was none at first.
pub proof fn first_candidate_stays_without_a_preferred_one<C: ManagedConnection>(
    preferred: Direction,
    candidates: Seq<C>,
)
    requires
        candidates.len() > 0,
        forall|i: int| 0 <= i < candidates.len() ==> (#[trigger] candidates[i]).side() != preferred,
    ensures
        current_after(preferred, None::<C>, candidates) == Some(candidates[0]),
    decreases candidates.len(),
{
    let before = candidates.drop_last();
    if before.len() > 0 {
        assert forall|i: int| 0 <= i < before.len() implies (#[trigger] before[i]).side()
            != preferred by {
            assert(before[i] == candidates[i]);
        }
        first_candidate_stays_without_a_preferred_one(preferred, before);
        assert(candidates.last() == candidates[candidates.len() - 1]);
    } else {
        assert(candidates.last() == candidates[0]);
        assert(current_after(preferred, None::<C>, before) is None);
    }
}

} // verus!
