use p2p_vpn::connection::connect::{Delay, LoopAction, LoopEvent, LoopState, OutgoingConnectLoop};
use p2p_vpn::error::Status;

fn secs(secs: u64) -> Delay {
    Delay { secs, nanos: 0 }
}

/// Runs the loop against a given back-off, and counts the resets.
struct Scenario {
    outgoing: OutgoingConnectLoop,
    delays: Vec<Delay>,
    index: usize,
    resets: usize,
    active: bool,
}

/// Where the loop comes to a stop, waiting for something to happen.
#[derive(Debug)]
enum Waiting {
    Change,
    Sleep(Delay),
    Connect,
    Submit(i32),
    Exit(Status),
}

impl Scenario {
    fn new(delays: Vec<Delay>) -> Self {
        Scenario {
            outgoing: OutgoingConnectLoop::new(),
            delays,
            index: 0,
            resets: 0,
            active: false,
        }
    }

    /// Reports an event, and does what can be done at once.
    fn tell(&mut self, event: LoopEvent<i32>) -> Waiting {
        let mut event = event;
        loop {
            assert!(self.outgoing.expects(&event));
            event = match self.outgoing.step(event) {
                LoopAction::Observe { reset } => {
                    if reset {
                        self.resets += 1;
                        self.index = 0;
                    }
                    LoopEvent::Observed(self.active)
                }
                LoopAction::NextBackoff => {
                    let delay = self.delays.get(self.index).copied();
                    self.index += 1;
                    LoopEvent::Backoff(delay)
                }
                LoopAction::AwaitChange => return Waiting::Change,
                LoopAction::Sleep(delay) => return Waiting::Sleep(delay),
                LoopAction::Connect => return Waiting::Connect,
                LoopAction::Submit(conn) => return Waiting::Submit(conn),
                LoopAction::Exit(status) => return Waiting::Exit(status),
            };
        }
    }
}

#[test]
fn test_successful_connection_flow() {
    // Starts with None -> Connects successfully -> Submits -> Waits for the watched state to
    // update -> Resets backoff -> Enters active state loop.
    let mut scenario = Scenario::new(vec![secs(1)]);

    assert!(matches!(scenario.tell(LoopEvent::Started), Waiting::Sleep(d) if d == secs(1)));
    assert_eq!(scenario.resets, 1);
    assert!(matches!(scenario.tell(LoopEvent::Slept), Waiting::Connect));

    // Verify the connection object is submitted
    assert!(matches!(scenario.tell(LoopEvent::Connected(42)), Waiting::Submit(42)));
    assert!(matches!(scenario.tell(LoopEvent::Submitted(Ok(()))), Waiting::Change));
    assert_eq!(scenario.resets, 1);

    // The manager updates the watched state with the new active connection
    scenario.active = true;
    assert!(matches!(scenario.tell(LoopEvent::Changed(Ok(()))), Waiting::Change));
    assert_eq!(
        scenario.resets, 2,
        "Reset should be called after successful connection and watch channel update synchronization."
    );
    assert_eq!(scenario.outgoing.state, LoopState::Active);

    // A disconnect ends the active state
    scenario.active = false;
    assert!(matches!(scenario.tell(LoopEvent::Changed(Ok(()))), Waiting::Sleep(_)));
    assert_eq!(
        scenario.resets, 3,
        "Reset should be called after resetting the connection to None"
    );

    match scenario.tell(LoopEvent::Cancelled) {
        Waiting::Exit(status) => {
            assert_eq!(status.code, 1);
            assert_eq!(status.message, "");
        }
        other => panic!("{:?}", other),
    }
    assert_eq!(scenario.outgoing.state, LoopState::Ended);
}

#[test]
fn test_backoff_interrupted_by_external_connection() {
    // Starts with None -> Next backoff is 10s -> During sleep, external system provides connection
    // (Some) -> Sleep is interrupted -> Backoff resets -> Waits in active loop.
    let mut scenario = Scenario::new(vec![secs(10)]);
    assert!(matches!(scenario.tell(LoopEvent::Started), Waiting::Sleep(d) if d == secs(10)));

    let resets = scenario.resets;
    scenario.active = true;
    assert!(matches!(scenario.tell(LoopEvent::Changed(Ok(()))), Waiting::Change));
    assert_eq!(
        scenario.resets,
        resets + 1,
        "Reset should be called exactly when the select! backoff sleep was interrupted by Some"
    );

    // Dropping the channel breaks the loop
    match scenario.tell(LoopEvent::Changed(Err("channel closed".to_string()))) {
        Waiting::Exit(status) => {
            assert_eq!(status.code, 9);
            assert_eq!(status.message, "channel closed");
        }
        other => panic!("{:?}", other),
    }
}

#[test]
fn test_backoff_interrupted_by_explicit_immediate_retry() {
    // Starts with None -> Fails -> Backoff is 10s -> User sends None again to force immediate retry
    // -> Sleep is interrupted -> Backoff resets -> Connects.
    let mut scenario = Scenario::new(vec![secs(10), secs(1)]);
    assert!(matches!(scenario.tell(LoopEvent::Started), Waiting::Sleep(d) if d == secs(10)));
    let resets = scenario.resets;

    // Force an immediate retry by explicitly pushing None again
    assert!(matches!(scenario.tell(LoopEvent::Changed(Ok(()))), Waiting::Sleep(d) if d == secs(10)));
    assert_eq!(
        scenario.resets,
        resets + 1,
        "Reset should be called when select! was interrupted by the explicit None signal"
    );

    // The first attempt fails, and the next backoff fetched is 1s
    assert!(matches!(scenario.tell(LoopEvent::Slept), Waiting::Connect));
    assert!(
        matches!(scenario.tell(LoopEvent::ConnectFailed), Waiting::Sleep(d) if d == secs(1)),
        "A failed attempt goes on with the back-off"
    );

    // Verify it proceeded to connect immediately and successfully
    assert!(matches!(scenario.tell(LoopEvent::Slept), Waiting::Connect));
    assert!(matches!(scenario.tell(LoopEvent::Connected(99)), Waiting::Submit(99)));
    assert!(matches!(scenario.tell(LoopEvent::Submitted(Ok(()))), Waiting::Change));

    match scenario.tell(LoopEvent::Cancelled) {
        Waiting::Exit(status) => {
            assert_eq!(status.code, 1);
            assert_eq!(status.message, "");
        }
        other => panic!("{:?}", other),
    }
}

#[test]
fn exhausted_backoff_ends_the_loop() {
    let mut scenario = Scenario::new(vec![]);
    match scenario.tell(LoopEvent::Started) {
        Waiting::Exit(status) => {
            assert_eq!(status.code, 9);
            assert_eq!(status.message, "Backoff exhausted, terminating connection loop");
        }
        other => panic!("{:?}", other),
    }
    assert!(!scenario.outgoing.expects(&LoopEvent::<i32>::Started));
    assert!(!scenario.outgoing.expects(&LoopEvent::<i32>::Cancelled));
}

#[test]
fn zero_backoff_connects_at_once() {
    let mut scenario = Scenario::new(vec![secs(0)]);
    assert!(matches!(scenario.tell(LoopEvent::Started), Waiting::Connect));
    let mut scenario = Scenario::new(vec![Delay { secs: 0, nanos: 1 }]);
    assert!(matches!(scenario.tell(LoopEvent::Started), Waiting::Sleep(_)));
}

#[test]
fn closed_connection_queue_ends_the_loop() {
    let mut scenario = Scenario::new(vec![secs(0)]);
    scenario.tell(LoopEvent::Started);
    scenario.tell(LoopEvent::Connected(1));
    match scenario.tell(LoopEvent::Submitted(Err("channel closed".to_string()))) {
        Waiting::Exit(status) => {
            assert_eq!(status.code, 9);
            assert_eq!(status.message, "channel closed");
        }
        other => panic!("{:?}", other),
    }
}

#[test]
fn cancellation_is_noticed_while_connecting_and_settling() {
    let mut scenario = Scenario::new(vec![secs(0)]);
    scenario.tell(LoopEvent::Started);
    assert!(matches!(scenario.tell(LoopEvent::Cancelled), Waiting::Exit(s) if s.code == 1));

    let mut scenario = Scenario::new(vec![secs(0)]);
    scenario.tell(LoopEvent::Started);
    scenario.tell(LoopEvent::Connected(1));
    assert!(!scenario.outgoing.expects(&LoopEvent::<i32>::Cancelled));
    scenario.tell(LoopEvent::Submitted(Ok(())));
    assert!(matches!(scenario.tell(LoopEvent::Cancelled), Waiting::Exit(s) if s.code == 1));
}
