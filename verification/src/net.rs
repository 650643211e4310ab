//! What the listener gives each accepted connection, and how a connection
//! is driven: wait for readiness, then call once, or shut down.
use crate::middleware::timeout::Timeout;
use vstd::prelude::*;

verus! {

/// The time budget of one connection, in nanoseconds: ten seconds.
pub const CONNECTION_TIMEOUT_NANOS: u128 = 10_000_000_000;

/// The service that handles one accepted connection: the connection's
/// service with the connection's time budget around it.
pub fn connection_service<S>(inner: S) -> (t: Timeout<S>)
    ensures
        t.budget() == CONNECTION_TIMEOUT_NANOS,
        t.deadline() is None,
        t.inner_service() == inner,
{
    Timeout::new(CONNECTION_TIMEOUT_NANOS, inner)
}

/// Where a connection stands.
#[derive(Clone, Copy, PartialEq, Eq, Structural, Debug)]
pub enum ConnState {
    /// Waiting for the service to be ready.
    AwaitingReady,
    /// The service was called; waiting for it to finish.
    AwaitingCall,
    /// Nothing more happens on this connection.
    Finished,
}

/// What happened to a connection.
#[derive(Clone, Copy, PartialEq, Eq, Structural, Debug)]
pub enum ConnEvent {
    /// The service became ready.
    Ready,
    /// The service failed its readiness check.
    NotReady,
    /// The call finished without error.
    CallSucceeded,
    /// The call finished with an error.
    CallFailed,
}

/// What to do next on a connection.
#[derive(Clone, Copy, PartialEq, Eq, Structural, Debug)]
pub enum ConnAction {
    /// Hand the connection to the service.
    Call,
    /// Shut the connection down.
    Shutdown,
    /// Report the error of the call.
    ReportFailure,
    /// Nothing.
    Nothing,
}

/// One step of a connection: a ready service is called, a service that is
/// not ready has the connection shut down, a failed call is reported, and
/// nothing else happens.
pub open spec fn conn_step_spec(s: ConnState, e: ConnEvent) -> (ConnState, ConnAction) {
    match (s, e) {
        (ConnState::AwaitingReady, ConnEvent::Ready) => (ConnState::AwaitingCall, ConnAction::Call),
        (ConnState::AwaitingReady, ConnEvent::NotReady) => (
            ConnState::Finished,
            ConnAction::Shutdown,
        ),
        (ConnState::AwaitingCall, ConnEvent::CallSucceeded) => (
            ConnState::Finished,
            ConnAction::Nothing,
        ),
        (ConnState::AwaitingCall, ConnEvent::CallFailed) => (
            ConnState::Finished,
            ConnAction::ReportFailure,
        ),
        _ => (s, ConnAction::Nothing),
    }
}

/// The next state and action of a connection in state `s` on event `e`.
pub fn conn_step(s: ConnState, e: ConnEvent) -> (r: (ConnState, ConnAction))
    ensures
        r == conn_step_spec(s, e),
{
    match (s, e) {
        (ConnState::AwaitingReady, ConnEvent::Ready) => (ConnState::AwaitingCall, ConnAction::Call),
        (ConnState::AwaitingReady, ConnEvent::NotReady) => (
            ConnState::Finished,
            ConnAction::Shutdown,
        ),
        (ConnState::AwaitingCall, ConnEvent::CallSucceeded) => (
            ConnState::Finished,
            ConnAction::Nothing,
        ),
        (ConnState::AwaitingCall, ConnEvent::CallFailed) => (
            ConnState::Finished,
            ConnAction::ReportFailure,
        ),
        _ => (s, ConnAction::Nothing),
    }
}

/// The actions of a connection in state `s` over the events `events`.
pub open spec fn conn_actions(s: ConnState, events: Seq<ConnEvent>) -> Seq<ConnAction>
    decreases events.len(),
{
    if events.len() == 0 {
        Seq::empty()
    } else {
        let (next, a) = conn_step_spec(s, events[0]);
        seq![a] + conn_actions(next, events.drop_first())
    }
}

/// Once a connection has left the wait for readiness, it is never called.
pub proof fn lemma_no_call_after_readiness(s: ConnState, events: Seq<ConnEvent>)
    requires
        s != ConnState::AwaitingReady,
    ensures
        forall|i: int|
            0 <= i < conn_actions(s, events).len() ==> conn_actions(s, events)[i]
                != ConnAction::Call,
    decreases events.len(),
{
    if events.len() > 0 {
        let (next, a) = conn_step_spec(s, events[0]);
        lemma_no_call_after_readiness(next, events.drop_first());
        assert forall|i: int| 0 <= i < conn_actions(s, events).len() implies conn_actions(
            s,
            events,
        )[i] != ConnAction::Call by {
            if i > 0 {
                assert(conn_actions(s, events)[i] == conn_actions(next, events.drop_first())[i
                    - 1]);
            }
        }
    }
}

/// A connection is called at most once, only right after its service became
/// ready, and never once it has been shut down.
pub proof fn lemma_called_at_most_once(events: Seq<ConnEvent>)
    ensures
        ({
            let acts = conn_actions(ConnState::AwaitingReady, events);
            &&& acts.len() == events.len()
            &&& forall|i: int| 0 <= i < acts.len() && acts[i] == ConnAction::Call ==> events[i]
                == ConnEvent::Ready
            &&& forall|i: int, j: int|
                0 <= i < j < acts.len() && acts[i] == ConnAction::Call ==> acts[j]
                    != ConnAction::Call
            &&& forall|i: int, j: int|
                0 <= i < j < acts.len() && acts[i] == ConnAction::Shutdown ==> acts[j]
                    != ConnAction::Call
        }),
    decreases events.len(),
{
    lemma_actions_len(ConnState::AwaitingReady, events);
    if events.len() > 0 {
        let acts = conn_actions(ConnState::AwaitingReady, events);
        let (next, a) = conn_step_spec(ConnState::AwaitingReady, events[0]);
        let rest = events.drop_first();
        if next == ConnState::AwaitingReady {
            lemma_called_at_most_once(rest);
        } else {
            lemma_no_call_after_readiness(next, rest);
        }
        assert forall|i: int| 0 < i < acts.len() implies acts[i] == conn_actions(next, rest)[i
            - 1] && events[i] == rest[i - 1] by {}
    }
}

/// A connection takes one action per event.
pub proof fn lemma_actions_len(s: ConnState, events: Seq<ConnEvent>)
    ensures
        conn_actions(s, events).len() == events.len(),
    decreases events.len(),
{
    if events.len() > 0 {
        let (next, a) = conn_step_spec(s, events[0]);
        lemma_actions_len(next, events.drop_first());
    }
}

} // verus!
