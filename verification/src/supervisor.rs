//! Per-connection supervision.
//!
//! A supervisor owns one connection's lifecycle: it waits for the next
//! inbound bidirectional stream and decides what to do with each event the
//! transport reports.  The surrounding task runs the wait loop, performs the
//! directive (spawn a handler, or end the task), and feeds the next event
//! back in.  The supervisor ends exactly once: with success on a clean
//! application close, with a transport error on any other failure.

use vstd::prelude::*;

use crate::errors::ServiceError;

verus! {

/// Lifecycle phase of one supervised connection.
#[derive(Clone, Copy, Debug, PartialEq, Eq, Structural)]
pub enum ConnState {
    /// The connection is up and streams are being accepted.
    Established,
    /// The connection has terminated; no further events are expected.
    Closed,
}

/// One event the transport reports while waiting for the next stream.
#[derive(Clone, Copy, Debug, PartialEq, Eq, Structural)]
pub enum ConnEvent {
    /// The peer opened a new bidirectional stream.
    StreamOffered,
    /// The peer closed the connection cleanly at the application level.
    AppClosed,
    /// The connection failed: timeout, protocol violation, or reset.
    TransportFailed,
}

/// What the surrounding task must do next.
#[derive(Clone, Copy, Debug, PartialEq, Eq)]
pub enum Directive {
    /// Spawn one concurrent handler for the offered stream and keep
    /// accepting without waiting for it.
    SpawnHandler,
    /// The supervisor is done: success on a clean close, the transport
    /// error otherwise.
    Finish(Result<(), ServiceError>),
}

/// The supervisor for one connection.
#[derive(Clone, Copy, Debug, PartialEq, Eq, Structural)]
pub struct Supervisor {
    pub state: ConnState,
    /// How many streams this connection has offered so far (saturating).
    pub streams_accepted: u64,
}

/// The supervisor's transition function: next supervisor and directive for
/// one event.
pub open spec fn step(s: Supervisor, e: ConnEvent) -> (Supervisor, Directive) {
    match e {
        ConnEvent::StreamOffered => (
            Supervisor {
                state: ConnState::Established,
                streams_accepted: if s.streams_accepted < u64::MAX {
                    (s.streams_accepted + 1) as u64
                } else {
                    s.streams_accepted
                },
            },
            Directive::SpawnHandler,
        ),
        ConnEvent::AppClosed => (
            Supervisor { state: ConnState::Closed, ..s },
            Directive::Finish(Ok(())),
        ),
        ConnEvent::TransportFailed => (
            Supervisor { state: ConnState::Closed, ..s },
            Directive::Finish(Err(ServiceError::Transport)),
        ),
    }
}

impl Supervisor {
    /// A fresh supervisor for a newly established connection.
    pub fn new() -> (s: Self)
        ensures
            s.state is Established,
            s.streams_accepted == 0,
    {
        Supervisor { state: ConnState::Established, streams_accepted: 0 }
    }

    /// Take one event and decide the next action.  Follows [`step`] exactly.
    pub fn on_event(&mut self, e: ConnEvent) -> (d: Directive)
        requires
            old(self).state is Established,
        ensures
            (*final(self), d) == step(*old(self), e),
            e is StreamOffered ==> d is SpawnHandler && final(self).state is Established,
            e is AppClosed ==> d == Directive::Finish(Result::<(), ServiceError>::Ok(())),
            e is TransportFailed
                ==> d == Directive::Finish(Result::<(), ServiceError>::Err(
                    ServiceError::Transport,
                )),
            !(e is StreamOffered) ==> final(self).state is Closed,
    {
        match e {
            ConnEvent::StreamOffered => {
                if self.streams_accepted < u64::MAX {
                    self.streams_accepted = self.streams_accepted + 1;
                }
                Directive::SpawnHandler
            },
            ConnEvent::AppClosed => {
                self.state = ConnState::Closed;
                Directive::Finish(Ok(()))
            },
            ConnEvent::TransportFailed => {
                self.state = ConnState::Closed;
                Directive::Finish(Err(ServiceError::Transport))
            },
        }
    }
}

/// The supervisor after a whole sequence of events, applied in order.
pub open spec fn run(s: Supervisor, events: Seq<ConnEvent>) -> Supervisor
    decreases events.len(),
{
    if events.len() == 0 {
        s
    } else {
        run(step(s, events[0]).0, events.drop_first())
    }
}

/// A clean application close ends the supervisor with success, never with a
/// transport error; only a transport failure ends it with one.
pub proof fn lemma_clean_close_is_success(s: Supervisor, e: ConnEvent)
    requires
        s.state is Established,
    ensures
        e is AppClosed ==> step(s, e).1 == Directive::Finish(
            Result::<(), ServiceError>::Ok(()),
        ),
        step(s, e).1 matches Directive::Finish(r) && r is Err <==> e is TransportFailed,
{
}

/// Stream arrivals never terminate the connection: however many streams the
/// peer offers, each one is handed to its own handler and the supervisor
/// keeps accepting.
pub proof fn lemma_streams_keep_accepting(s: Supervisor, events: Seq<ConnEvent>)
    requires
        s.state is Established,
        forall|i: int| 0 <= i < events.len() ==> events[i] is StreamOffered,
    ensures
        run(s, events).state is Established,
    decreases events.len(),
{
    if events.len() > 0 {
        assert(events[0] is StreamOffered);
        lemma_streams_keep_accepting(step(s, events[0]).0, events.drop_first());
    }
}

} // verus!
