//! The Listener Task.
//!
//! A dedicated thread of control drains the session's inbound event stream
//! for as long as the session is open: each inbound message is handled (the
//! agent logs it) and counted, and when the stream ends — the broker closed
//! the connection, or the stream yielded an error — the task exits silently.
//! It is a fire-and-forget background consumer: it never restarts the
//! session, never signals the telemetry loop, and shares no state with it.

use vstd::prelude::*;
use crate::telemetry::saturating_inc;

verus! {

/// Whether the listener still consumes the stream.
#[derive(Clone, Copy, PartialEq, Eq, Structural, Debug)]
pub enum ListenerPhase {
    /// The task is blocked on, or handling, the next inbound event.
    Attached,
    /// The stream terminated; the task has exited. Terminal.
    Detached,
}

/// What the inbound stream yielded.
#[derive(Clone, Copy, PartialEq, Eq, Structural, Debug)]
pub enum StreamEvent {
    /// An inbound message arrived and was handled.
    MessageArrived,
    /// The broker closed the connection: end of stream.
    StreamClosed,
    /// The stream yielded an error.
    StreamFailed,
}

/// The listener's state: whether it still runs, and how many inbound
/// messages it has handled.
#[derive(Clone, Copy, PartialEq, Eq, Structural, Debug)]
pub struct Listener {
    /// Whether the task still consumes the stream.
    pub phase: ListenerPhase,
    /// Inbound messages handled, saturating.
    pub received: u64,
}

/// How one stream event moves the listener: messages are counted, either
/// terminal signal detaches it, and a detached listener never reacts again.
pub open spec fn listener_transition(s: Listener, ev: StreamEvent) -> Listener {
    match (s.phase, ev) {
        (ListenerPhase::Attached, StreamEvent::MessageArrived) => (Listener {
            phase: ListenerPhase::Attached,
            received: saturating_inc(s.received),
        }),
        (ListenerPhase::Attached, StreamEvent::StreamClosed) => (Listener {
            phase: ListenerPhase::Detached,
            ..s
        }),
        (ListenerPhase::Attached, StreamEvent::StreamFailed) => (Listener {
            phase: ListenerPhase::Detached,
            ..s
        }),
        (ListenerPhase::Detached, _) => s,
    }
}

/// The listener state after consuming `evs` in order.
pub open spec fn listener_run(s: Listener, evs: Seq<StreamEvent>) -> Listener
    decreases evs.len(),
{
    if evs.len() == 0 {
        s
    } else {
        listener_transition(listener_run(s, evs.drop_last()), evs.last())
    }
}

/// Stream termination is silent and final: a detached listener ignores
/// everything, and in particular never reattaches or restarts the session.
pub proof fn lemma_detached_is_terminal(s: Listener, ev: StreamEvent)
    requires
        s.phase is Detached,
    ensures
        listener_transition(s, ev) == s,
{
}

impl Listener {
    /// The listener as it is spawned: attached, nothing handled yet.
    pub fn new() -> (l: Listener)
        ensures
            l.phase == ListenerPhase::Attached,
            l.received == 0,
    {
        Listener { phase: ListenerPhase::Attached, received: 0 }
    }

    /// Folds one stream event into the state, exactly as
    /// [`listener_transition`] describes.
    pub fn on_event(&mut self, ev: StreamEvent)
        ensures
            *final(self) == listener_transition(*old(self), ev),
    {
        match (self.phase, ev) {
            (ListenerPhase::Attached, StreamEvent::MessageArrived) => {
                if self.received < u64::MAX {
                    self.received = self.received + 1;
                }
            },
            (ListenerPhase::Attached, StreamEvent::StreamClosed) => {
                self.phase = ListenerPhase::Detached;
            },
            (ListenerPhase::Attached, StreamEvent::StreamFailed) => {
                self.phase = ListenerPhase::Detached;
            },
            (ListenerPhase::Detached, _) => {},
        }
    }

    /// Whether the task still consumes the stream.
    pub fn is_attached(&self) -> (r: bool)
        ensures
            r == (self.phase is Attached),
    {
        match self.phase {
            ListenerPhase::Attached => true,
            ListenerPhase::Detached => false,
        }
    }
}

} // verus!
