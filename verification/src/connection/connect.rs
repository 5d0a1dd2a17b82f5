//! The loop that opens connections to a peer.
//!
//! The loop watches whether a connection is active. While none is, it opens new ones, with a
//! back-off between the attempts. Everything that takes time (waiting, sleeping, connecting) is
//! done by the program around it: the loop says what to do next, and is told how it went.

use crate::error;
use thin_status::ErrorCode;
use vstd::prelude::*;

verus! {

/// A span of time.
#[derive(Clone, Copy, Debug, PartialEq, Eq, Structural)]
pub struct Delay {
    pub secs: u64,
    pub nanos: u32,
}

impl Delay {
    /// Whether there is nothing to wait for.
    pub open spec fn zero(self) -> bool {
        self.secs == 0 && self.nanos == 0
    }

    pub fn is_zero(&self) -> (r: bool)
        ensures
            r <==> self.zero(),
            r <==> self.secs == 0 && self.nanos == 0,
    {
        self.secs == 0 && self.nanos == 0
    }
}

/// What the loop is waiting for.
#[derive(Clone, Copy, Debug, PartialEq, Eq, Structural)]
pub enum LoopState {
    /// The loop was not started.
    Idle,
    /// To learn whether a connection is active.
    Observing,
    /// For the active connection to change.
    Active,
    /// To learn how long to back off.
    BackingOff,
    /// For the back-off to elapse.
    Sleeping,
    /// For a connection attempt to end.
    Connecting,
    /// For the new connection to be taken by the queue.
    Submitting,
    /// For the new connection to be reflected in the watched state.
    Settling,
    /// The loop has ended.
    Ended,
}

/// What the program around the loop reports.
#[derive(Debug)]
pub enum LoopEvent<C> {
    Started,
    /// The watched state was read, and marked as seen: whether a connection is active.
    Observed(bool),
    /// The watched state has changed since it was last seen; or it won't any more, for the reason
    /// given.
    Changed(Result<(), String>),
    /// The next back-off, or none if the back-off is exhausted.
    Backoff(Option<Delay>),
    /// The delay is over.
    Slept,
    Connected(C),
    ConnectFailed,
    /// The queue took the connection; or it is closed, with the reason given.
    Submitted(Result<(), String>),
    Cancelled,
}

/// What the program around the loop is to do next.
#[derive(Debug)]
pub enum LoopAction<C> {
    /// Read the watched state and mark it as seen; before that, reset the back-off if told so.
    Observe { reset: bool },
    /// Wait for a change of the watched state or for the cancellation.
    AwaitChange,
    /// Ask for the next back-off.
    NextBackoff,
    /// Wait for the delay, for a change of the watched state or for the cancellation.
    Sleep(Delay),
    /// Wait for a connection attempt or for the cancellation.
    Connect,
    /// Hand the connection to the queue.
    Submit(C),
    /// End with the error.
    Exit(error::Status),
}

/// Whether an event can happen in a state.
pub open spec fn expected<C>(state: LoopState, event: LoopEvent<C>) -> bool {
    match event {
        LoopEvent::Started => state is Idle,
        LoopEvent::Observed(_) => state is Observing,
        LoopEvent::Changed(_) => state is Active || state is Sleeping || state is Settling,
        LoopEvent::Backoff(_) => state is BackingOff,
        LoopEvent::Slept => state is Sleeping,
        LoopEvent::Connected(_) => state is Connecting,
        LoopEvent::ConnectFailed => state is Connecting,
        LoopEvent::Submitted(_) => state is Submitting,
        LoopEvent::Cancelled => cancellable(state),
    }
}

/// Whether the cancellation is noticed in a state.
pub open spec fn cancellable(state: LoopState) -> bool {
    state is Active || state is Sleeping || state is Connecting || state is Settling
}

/// The state that follows an expected event.
pub open spec fn next_state<C>(event: LoopEvent<C>) -> LoopState {
    match event {
        LoopEvent::Started => LoopState::Observing,
        LoopEvent::Observed(true) => LoopState::Active,
        LoopEvent::Observed(false) => LoopState::BackingOff,
        LoopEvent::Changed(Ok(_)) => LoopState::Observing,
        LoopEvent::Changed(Err(_)) => LoopState::Ended,
        LoopEvent::Backoff(Some(delay)) => if delay.zero() {
            LoopState::Connecting
        } else {
            LoopState::Sleeping
        },
        LoopEvent::Backoff(None) => LoopState::Ended,
        LoopEvent::Slept => LoopState::Connecting,
        LoopEvent::Connected(_) => LoopState::Submitting,
        LoopEvent::ConnectFailed => LoopState::Observing,
        LoopEvent::Submitted(Ok(_)) => LoopState::Settling,
        LoopEvent::Submitted(Err(_)) => LoopState::Ended,
        LoopEvent::Cancelled => LoopState::Ended,
    }
}

/// Whether `action` is what follows an expected event.
pub open spec fn answers<C>(event: LoopEvent<C>, action: LoopAction<C>) -> bool {
    match event {
        LoopEvent::Started => observes(action, true),
        LoopEvent::Observed(true) => action == LoopAction::<C>::AwaitChange,
        LoopEvent::Observed(false) => action == LoopAction::<C>::NextBackoff,
        LoopEvent::Changed(Ok(_)) => observes(action, true),
        LoopEvent::Changed(Err(reason)) => exits(action, ErrorCode::FailedPrecondition, reason@),
        LoopEvent::Backoff(Some(delay)) => if delay.zero() {
            action == LoopAction::<C>::Connect
        } else {
            action == LoopAction::<C>::Sleep(delay)
        },
        LoopEvent::Backoff(None) => exits(
            action,
            ErrorCode::FailedPrecondition,
            "Backoff exhausted, terminating connection loop"@,
        ),
        LoopEvent::Slept => action == LoopAction::<C>::Connect,
        LoopEvent::Connected(conn) => action == LoopAction::Submit(conn),
        LoopEvent::ConnectFailed => observes(action, false),
        LoopEvent::Submitted(Ok(_)) => action == LoopAction::<C>::AwaitChange,
        LoopEvent::Submitted(Err(reason)) => exits(action, ErrorCode::FailedPrecondition, reason@),
        LoopEvent::Cancelled => exits(action, ErrorCode::Cancelled, ""@),
    }
}

/// Whether an action is to read the watched state, and to reset the back-off before that or not.
pub open spec fn observes<C>(action: LoopAction<C>, reset: bool) -> bool {
    action is Observe && action->reset == reset
}

/// Whether an action is to end with the given code and message.
pub open spec fn exits<C>(action: LoopAction<C>, code: ErrorCode, message: Seq<char>) -> bool {
    action is Exit && action->Exit_0.is(code, message)
}

/// A loop that opens connections whenever none is active.
#[derive(Debug)]
pub struct OutgoingConnectLoop {
    pub state: LoopState,
}

fn end_with<C>(code: ErrorCode, message: String) -> (r: LoopAction<C>)
    ensures
        exits(r, code, message@),
{
    LoopAction::Exit(error::Status::new(code, message))
}

impl OutgoingConnectLoop {
    /// A loop that was not started.
    pub fn new() -> (r: OutgoingConnectLoop)
        ensures
            r.state is Idle,
    {
        OutgoingConnectLoop { state: LoopState::Idle }
    }

    /// Tells whether an event can happen now.
    pub fn expects<C>(&self, event: &LoopEvent<C>) -> (r: bool)
        ensures
            r <==> expected(self.state, *event),
    {
        match (event, self.state) {
            (LoopEvent::Started, LoopState::Idle) => true,
            (LoopEvent::Observed(_), LoopState::Observing) => true,
            (LoopEvent::Changed(_), LoopState::Active) => true,
            (LoopEvent::Changed(_), LoopState::Sleeping) => true,
            (LoopEvent::Changed(_), LoopState::Settling) => true,
            (LoopEvent::Backoff(_), LoopState::BackingOff) => true,
            (LoopEvent::Slept, LoopState::Sleeping) => true,
            (LoopEvent::Connected(_), LoopState::Connecting) => true,
            (LoopEvent::ConnectFailed, LoopState::Connecting) => true,
            (LoopEvent::Submitted(_), LoopState::Submitting) => true,
            (LoopEvent::Cancelled, LoopState::Active) => true,
            (LoopEvent::Cancelled, LoopState::Sleeping) => true,
            (LoopEvent::Cancelled, LoopState::Connecting) => true,
            (LoopEvent::Cancelled, LoopState::Settling) => true,
            _ => false,
        }
    }

    /// Takes an event and says what to do next.
    pub fn step<C>(&mut self, event: LoopEvent<C>) -> (r: LoopAction<C>)
        requires
            expected(old(self).state, event),
        ensures
            final(self).state == next_state(event),
            answers(event, r),
            r is Sleep <==> final(self).state is Sleeping,
            r is Sleep ==> event is Backoff && event->Backoff_0 == Some(r->Sleep_0),
            event is Backoff && event->Backoff_0 is Some ==> (r is Sleep <==> event->Backoff_0->0.secs > 0
                || event->Backoff_0->0.nanos > 0),
            r is Connect <==> final(self).state is Connecting,
            r is Submit <==> event is Connected,
            r is Submit ==> r->Submit_0 == event->Connected_0,
            r is Exit <==> final(self).state is Ended,
    {
        match event {
            LoopEvent::Started => {
                self.state = LoopState::Observing;
                LoopAction::Observe { reset: true }
            },
            LoopEvent::Observed(active) => {
                if active {
                    self.state = LoopState::Active;
                    LoopAction::AwaitChange
                } else {
                    self.state = LoopState::BackingOff;
                    LoopAction::NextBackoff
                }
            },
            LoopEvent::Changed(Ok(_)) => {
                self.state = LoopState::Observing;
                LoopAction::Observe { reset: true }
            },
            LoopEvent::Changed(Err(reason)) => {
                self.state = LoopState::Ended;
                end_with(ErrorCode::FailedPrecondition, reason)
            },
            LoopEvent::Backoff(Some(delay)) => {
                if delay.is_zero() {
                    self.state = LoopState::Connecting;
                    LoopAction::Connect
                } else {
                    self.state = LoopState::Sleeping;
                    LoopAction::Sleep(delay)
                }
            },
            LoopEvent::Backoff(None) => {
                self.state = LoopState::Ended;
                end_with(
                    ErrorCode::FailedPrecondition,
                    "Backoff exhausted, terminating connection loop".to_owned(),
                )
            },
            LoopEvent::Slept => {
                self.state = LoopState::Connecting;
                LoopAction::Connect
            },
            LoopEvent::Connected(conn) => {
                self.state = LoopState::Submitting;
                LoopAction::Submit(conn)
            },
            LoopEvent::ConnectFailed => {
                self.state = LoopState::Observing;
                LoopAction::Observe { reset: false }
            },
            LoopEvent::Submitted(Ok(_)) => {
                self.state = LoopState::Settling;
                LoopAction::AwaitChange
            },
            LoopEvent::Submitted(Err(reason)) => {
                self.state = LoopState::Ended;
                end_with(ErrorCode::FailedPrecondition, reason)
            },
            LoopEvent::Cancelled => {
                self.state = LoopState::Ended;
                end_with(ErrorCode::Cancelled, "".to_owned())
            },
        }
    }
}

/// The state of the loop after a series of events.
pub open spec fn state_after<C>(events: Seq<LoopEvent<C>>) -> LoopState {
    if events.len() == 0 {
        LoopState::Idle
    } else {
        next_state(events.last())
    }
}

/// Whether a series of events can happen: each is expected in the state that those before it led
/// to.
pub open spec fn run<C>(events: Seq<LoopEvent<C>>) -> bool {
    forall|i: int|
        0 <= i < events.len() ==> expected(state_after(events.take(i)), #[trigger] events[i])
}

/// The loop sleeps exactly when it was given a back-off that is not zero, and then for just that
/// delay, with its seconds and its nanoseconds.
pub proof fn the_given_backoff_is_slept<C>(event: LoopEvent<C>, action: LoopAction<C>)
    requires
        answers(event, action),
    ensures
        action is Sleep <==> event is Backoff && event->Backoff_0 is Some && !(
        event->Backoff_0->0.secs == 0 && event->Backoff_0->0.nanos == 0),
        action is Sleep ==> action->Sleep_0.secs == event->Backoff_0->0.secs
            && action->Sleep_0.nanos == event->Backoff_0->0.nanos,
{
}

/// The loop connects exactly when a back-off has elapsed, or is zero.
pub proof fn only_an_elapsed_backoff_connects<C>(event: LoopEvent<C>, action: LoopAction<C>)
    requires
        answers(event, action),
    ensures
        action is Connect <==> event is Slept || (event is Backoff && event->Backoff_0 is Some
            && event->Backoff_0->0.secs == 0 && event->Backoff_0->0.nanos == 0),
{
}

/// The loop asks for a back-off exactly when no connection is active, and waits for a change exactly
/// when one is, or when one was taken by the queue.
pub proof fn the_loop_waits_while_a_connection_is_active<C>(
    event: LoopEvent<C>,
    action: LoopAction<C>,
)
    requires
        answers(event, action),
    ensures
        action is NextBackoff <==> event == LoopEvent::<C>::Observed(false),
        action is AwaitChange <==> event == LoopEvent::<C>::Observed(true) || (event is Submitted
            && event->Submitted_0 is Ok),
        action is Observe <==> event is Started || event is ConnectFailed || (event is Changed
            && event->Changed_0 is Ok),
        action is Observe ==> (action->reset <==> !(event is ConnectFailed)),
{
}

/// The loop ends with the code `CANCELLED` if it was cancelled, and else with `FAILED_PRECONDITION`
/// and the reason why it cannot go on.
pub proof fn the_loop_tells_why_it_ends<C>(event: LoopEvent<C>, action: LoopAction<C>)
    requires
        answers(event, action),
    ensures
        action is Exit <==> {
            ||| event is Cancelled
            ||| event is Backoff && event->Backoff_0 is None
            ||| event is Changed && event->Changed_0 is Err
            ||| event is Submitted && event->Submitted_0 is Err
        },
        event is Cancelled ==> action->Exit_0.code == 1 && action->Exit_0.message@ == ""@,
        event is Backoff && event->Backoff_0 is None ==> action->Exit_0.code == 9
            && action->Exit_0.message@ == "Backoff exhausted, terminating connection loop"@,
        event is Changed && event->Changed_0 is Err ==> action->Exit_0.code == 9
            && action->Exit_0.message@ == event->Changed_0->Err_0@,
        event is Submitted && event->Submitted_0 is Err ==> action->Exit_0.code == 9
            && action->Exit_0.message@ == event->Submitted_0->Err_0@,
{
}

/// What the loop waits for is told by what it has asked for.
pub proof fn states_follow_actions<C>(event: LoopEvent<C>, action: LoopAction<C>)
    requires
        answers(event, action),
    ensures
        action is Observe <==> next_state(event) is Observing,
        action is AwaitChange <==> next_state(event) is Active || next_state(event) is Settling,
        event is Submitted ==> !(next_state(event) is Active),
        event is Observed ==> !(next_state(event) is Settling),
        action is NextBackoff <==> next_state(event) is BackingOff,
        action is Sleep <==> next_state(event) is Sleeping,
        action is Connect <==> next_state(event) is Connecting,
        action is Submit <==> next_state(event) is Submitting,
        action is Exit <==> next_state(event) is Ended,
{
}

/// In each state just the events can happen that the loop waits for there: a change and the
/// cancellation are noticed while it waits for a change or sleeps, the cancellation also while it
/// connects.
pub proof fn each_state_waits_for_its_events<C>(state: LoopState, event: LoopEvent<C>)
    ensures
        state is Idle ==> (expected(state, event) <==> event is Started),
        state is Observing ==> (expected(state, event) <==> event is Observed),
        state is Active || state is Settling ==> (expected(state, event) <==> event is Changed
            || event is Cancelled),
        state is BackingOff ==> (expected(state, event) <==> event is Backoff),
        state is Sleeping ==> (expected(state, event) <==> event is Slept || event is Changed
            || event is Cancelled),
        state is Connecting ==> (expected(state, event) <==> event is Connected
            || event is ConnectFailed || event is Cancelled),
        state is Submitting ==> (expected(state, event) <==> event is Submitted),
        state is Ended ==> !expected(state, event),
{
}

/// An attempt that follows a sleep has waited for the very delay that the last back-off gave: the
/// sleep was asked for right before, and for that delay.
pub proof fn attempts_wait_for_the_last_backoff<C>(
    events: Seq<LoopEvent<C>>,
    actions: Seq<LoopAction<C>>,
)
    requires
        run(events),
        actions.len() == events.len(),
        forall|i: int| 0 <= i < events.len() ==> answers(#[trigger] events[i], actions[i]),
        events.len() > 0,
        events.last() is Slept,
    ensures
        actions.last() is Connect,
        events.len() >= 2,
        events[events.len() - 2] is Backoff,
        events[events.len() - 2]->Backoff_0 is Some,
        actions[actions.len() - 2] is Sleep,
        actions[actions.len() - 2]->Sleep_0.secs == events[events.len() - 2]->Backoff_0->0.secs,
        actions[actions.len() - 2]->Sleep_0.nanos == events[events.len() - 2]->Backoff_0->0.nanos,
{
    let n = events.len() as int;
    assert(expected(state_after(events.take(n - 1)), events[n - 1]));
    assert(answers(events[n - 1], actions[n - 1]));
    if n >= 2 {
        assert(events.take(n - 1).last() == events[n - 2]);
        assert(answers(events[n - 2], actions[n - 2]));
    }
}

/// Whether an event is a back-off whose delay is zero, or is not, as told.
pub open spec fn backs_off<C>(event: LoopEvent<C>, zero: bool) -> bool {
    event matches LoopEvent::Backoff(Some(delay)) && delay.zero() == zero
}

/// Whether the last events are an observation that no connection is active, the back-off, and that
/// it has elapsed unless it is zero.
pub open spec fn attempt_is_due<C>(events: Seq<LoopEvent<C>>) -> bool {
    let n = events.len();
    ||| {
        &&& n >= 2
        &&& events[n - 2] == LoopEvent::<C>::Observed(false)
        &&& backs_off(events[n - 1], true)
    }
    ||| {
        &&& n >= 3
        &&& events[n - 3] == LoopEvent::<C>::Observed(false)
        &&& backs_off(events[n - 2], false)
        &&& events[n - 1] is Slept
    }
}

/// The loop never starts a connection attempt while a connection is active: the last observation
/// before an attempt was that there is none, and nothing was reported since then but the back-off
/// and that it has elapsed. So every attempt is preceded by a back-off of its own, and the delay
/// was waited for unless it is zero.
pub proof fn attempts_follow_an_idle_observation<C>(events: Seq<LoopEvent<C>>)
    requires
        run(events),
        state_after(events) is Connecting,
    ensures
        attempt_is_due(events),
{
    let n = events.len() as int;
    assert(expected(state_after(events.take(n - 1)), events[n - 1]));
    if n >= 2 {
        assert(events.take(n - 1).last() == events[n - 2]);
        assert(expected(state_after(events.take(n - 2)), events[n - 2]));
    }
    if n >= 3 {
        assert(events.take(n - 2).last() == events[n - 3]);
        assert(expected(state_after(events.take(n - 3)), events[n - 3]));
    }
}

/// The loop ends only if it was cancelled, the back-off is exhausted, or the watched state or the
/// queue is closed; and after it has ended, nothing more can happen.
pub proof fn the_loop_ends_only_for_a_reason<C>(events: Seq<LoopEvent<C>>)
    requires
        run(events),
    ensures
        state_after(events) is Ended <==> events.len() > 0 && {
            ||| events.last() is Cancelled
            ||| events.last() == LoopEvent::<C>::Backoff(None)
            ||| events.last() matches LoopEvent::Changed(Err(_))
            ||| events.last() matches LoopEvent::Submitted(Err(_))
        },
        state_after(events) is Ended ==> forall|event: LoopEvent<C>|
            !expected(state_after(events), event),
{
}

/// Wherever the loop waits for something that may take any time, the cancellation ends it.
pub proof fn cancellation_ends_every_wait<C>(state: LoopState, event: LoopEvent<C>)
    requires
        expected(state, event),
        event is Changed || event is Slept || event is Connected || event is ConnectFailed,
    ensures
        expected(state, LoopEvent::<C>::Cancelled),
        next_state(LoopEvent::<C>::Cancelled) is Ended,
{
}

/// Whether an event is an outcome of what the program was told to do.
pub open spec fn outcome<C>(action: LoopAction<C>, event: LoopEvent<C>) -> bool {
    match action {
        LoopAction::Observe { .. } => event is Observed,
        LoopAction::AwaitChange => event is Changed || event is Cancelled,
        LoopAction::NextBackoff => event is Backoff,
        LoopAction::Sleep(_) => event is Slept || event is Changed || event is Cancelled,
        LoopAction::Connect => event is Connected || event is ConnectFailed || event is Cancelled,
        LoopAction::Submit(_) => event is Submitted,
        LoopAction::Exit(_) => false,
    }
}

/// The loop waits for just what it has asked for: the events that it expects after an action are the
/// outcomes of the action, all of them and no others.
pub proof fn every_outcome_is_expected<C>(
    event: LoopEvent<C>,
    action: LoopAction<C>,
    next: LoopEvent<C>,
)
    requires
        answers(event, action),
    ensures
        expected(next_state(event), next) <==> outcome(action, next),
{
}

/// The back-off is reset when the loop starts and whenever the watched state has changed, and at no
/// other time: a failed attempt goes on with the back-off where it is.
pub proof fn only_changes_reset_the_backoff<C>(event: LoopEvent<C>, action: LoopAction<C>)
    requires
        answers(event, action),
    ensures
        observes(action, true) <==> event is Started
            || event matches LoopEvent::Changed(Ok(_)),
        observes(action, false) <==> event is ConnectFailed,
{
}

/// A connection is submitted exactly when an attempt gave it, and it is that connection.
pub proof fn every_connection_is_submitted<C>(event: LoopEvent<C>, action: LoopAction<C>)
    requires
        answers(event, action),
    ensures
        action is Submit <==> event is Connected,
        event is Connected ==> action->Submit_0 == event->Connected_0,
{
}

} // verus!
