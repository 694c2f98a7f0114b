//! The listener loop: connections are accepted one at a time and each is
//! served before the next is accepted. Failures are logged; none of them
//! ends the loop, which has no action that stops it.

use vstd::prelude::*;

verus! {

/// The local address and port that the server listens on.
pub fn listen_address() -> (r: &'static str)
    ensures
        r@ == "127.0.0.1:7878"@,
{
    "127.0.0.1:7878"
}

/// Whether the loop waits for a connection or serves one.
#[derive(Clone, Copy, Debug, PartialEq, Eq, Structural)]
pub enum ListenerPhase {
    Accepting,
    Serving,
}

/// What the loop learns from the socket and from the handler.
#[derive(Clone, Copy, Debug, PartialEq, Eq, Structural)]
pub enum ListenerEvent {
    /// A connection was accepted.
    Accepted,
    /// Accepting a connection failed.
    AcceptFailed,
    /// The handler served the connection.
    ConnectionServed,
    /// The handler failed on the connection.
    ConnectionFailed,
}

/// What the loop does next.
#[derive(Clone, Copy, Debug, PartialEq, Eq, Structural)]
pub enum ListenerAction {
    /// Log the peer's address and run the handler on the connection.
    Serve,
    /// Log the accept failure, then accept again.
    LogAcceptFailure,
    /// Log the handler's failure, then accept again.
    LogConnectionFailure,
    /// Accept the next connection.
    AcceptNext,
    /// The event does not belong to this phase: carry on as before.
    Ignore,
}

/// The loop's protocol: the next phase and action for a phase and an event.
pub open spec fn listener_next(p: ListenerPhase, e: ListenerEvent) -> (ListenerPhase, ListenerAction) {
    match (p, e) {
        (ListenerPhase::Accepting, ListenerEvent::Accepted) => (ListenerPhase::Serving, ListenerAction::Serve),
        (ListenerPhase::Accepting, ListenerEvent::AcceptFailed) => (
            ListenerPhase::Accepting,
            ListenerAction::LogAcceptFailure,
        ),
        (ListenerPhase::Serving, ListenerEvent::ConnectionServed) => (
            ListenerPhase::Accepting,
            ListenerAction::AcceptNext,
        ),
        (ListenerPhase::Serving, ListenerEvent::ConnectionFailed) => (
            ListenerPhase::Accepting,
            ListenerAction::LogConnectionFailure,
        ),
        _ => (p, ListenerAction::Ignore),
    }
}

/// The phases and actions of the loop from phase `p` over `events`.
pub open spec fn listener_run(p: ListenerPhase, events: Seq<ListenerEvent>) -> (
    ListenerPhase,
    Seq<ListenerAction>,
)
    decreases events.len(),
{
    if events.len() == 0 {
        (p, Seq::empty())
    } else {
        let (p1, a) = listener_next(p, events[0]);
        let (p2, rest) = listener_run(p1, events.drop_first());
        (p2, seq![a] + rest)
    }
}

/// The loop's state.
#[derive(Clone, Copy, Debug, PartialEq, Eq, Structural)]
pub struct Listener {
    pub phase: ListenerPhase,
}

impl Listener {
    /// A loop waiting for its first connection.
    pub fn new() -> (l: Listener)
        ensures
            l.phase == ListenerPhase::Accepting,
    {
        Listener { phase: ListenerPhase::Accepting }
    }

    /// Takes an event and returns what the loop does next.
    pub fn step(&mut self, e: ListenerEvent) -> (a: ListenerAction)
        ensures
            (final(self).phase, a) == listener_next(old(self).phase, e),
    {
        let (p, a) = match (self.phase, e) {
            (ListenerPhase::Accepting, ListenerEvent::Accepted) => (ListenerPhase::Serving, ListenerAction::Serve),
            (ListenerPhase::Accepting, ListenerEvent::AcceptFailed) => (
                ListenerPhase::Accepting,
                ListenerAction::LogAcceptFailure,
            ),
            (ListenerPhase::Serving, ListenerEvent::ConnectionServed) => (
                ListenerPhase::Accepting,
                ListenerAction::AcceptNext,
            ),
            (ListenerPhase::Serving, ListenerEvent::ConnectionFailed) => (
                ListenerPhase::Accepting,
                ListenerAction::LogConnectionFailure,
            ),
            _ => (self.phase, ListenerAction::Ignore),
        };
        self.phase = p;
        a
    }
}

/// However many accepts fail in a row, each failure is logged and the
/// loop keeps accepting.
pub proof fn lemma_accept_failures_keep_listening(n: nat)
    ensures
        listener_run(
            ListenerPhase::Accepting,
            Seq::new(n, |i: int| ListenerEvent::AcceptFailed),
        ) == (
            ListenerPhase::Accepting,
            Seq::new(n, |i: int| ListenerAction::LogAcceptFailure),
        ),
    decreases n,
{
    let events = Seq::new(n, |i: int| ListenerEvent::AcceptFailed);
    if n > 0 {
        lemma_accept_failures_keep_listening((n - 1) as nat);
        assert(events.drop_first() =~= Seq::new((n - 1) as nat, |i: int| ListenerEvent::AcceptFailed));
    }
    assert(listener_run(ListenerPhase::Accepting, events).1 =~= Seq::new(
        n,
        |i: int| ListenerAction::LogAcceptFailure,
    ));
}

/// A connection on which the handler fails is logged, and the loop goes
/// back to accepting: the next connection is served as the first was.
pub proof fn lemma_connection_failure_keeps_listening()
    ensures
        listener_run(
            ListenerPhase::Accepting,
            seq![ListenerEvent::Accepted, ListenerEvent::ConnectionFailed, ListenerEvent::Accepted],
        ) == (
            ListenerPhase::Serving,
            seq![ListenerAction::Serve, ListenerAction::LogConnectionFailure, ListenerAction::Serve],
        ),
{
    reveal_with_fuel(listener_run, 4);
    assert(listener_run(
        ListenerPhase::Accepting,
        seq![ListenerEvent::Accepted, ListenerEvent::ConnectionFailed, ListenerEvent::Accepted],
    ).1 =~= seq![ListenerAction::Serve, ListenerAction::LogConnectionFailure, ListenerAction::Serve]);
}

} // verus!
