//! The duplex session, as one model.
//!
//! A message session pairs an outbound publisher, driven by the telemetry
//! loop on the main thread, with an inbound event stream, consumed by the
//! listener task on its own thread. The two share no mutable state — only
//! the transport underneath, which the external Messaging Transport keeps
//! safe for one concurrent reader and one concurrent writer. This module
//! states that independence: interleave the two components' events however
//! the scheduler likes, and each component ends exactly where its own events
//! alone take it. In particular, the broker closing the inbound stream
//! leaves the telemetry loop — and therefore its next publish — untouched.

use vstd::prelude::*;
use crate::listener::Listener;
use crate::listener::StreamEvent;
use crate::listener::listener_run;
use crate::listener::listener_transition;
use crate::telemetry::TelemetryEvent;
use crate::telemetry::TelemetryLoop;
use crate::telemetry::telemetry_run;
use crate::telemetry::telemetry_transition;

verus! {

/// The whole session: the publisher side and the listener side.
pub struct Session {
    /// The outbound side, owned by the main thread.
    pub publisher: TelemetryLoop,
    /// The inbound side, owned by the listener thread after spawn.
    pub listener: Listener,
}

/// One scheduler step: an outcome delivered to exactly one side.
#[derive(Clone, Copy, PartialEq, Eq, Structural, Debug)]
pub enum SessionEvent {
    /// An outcome for the telemetry loop.
    Outbound { ev: TelemetryEvent },
    /// A stream event for the listener task.
    Inbound { ev: StreamEvent },
}

/// Each event moves its own side and leaves the other side untouched.
pub open spec fn session_transition(s: Session, ev: SessionEvent) -> Session {
    match ev {
        SessionEvent::Outbound { ev } => (Session {
            publisher: telemetry_transition(s.publisher, ev),
            ..s
        }),
        SessionEvent::Inbound { ev } => (Session {
            listener: listener_transition(s.listener, ev),
            ..s
        }),
    }
}

/// The session after one interleaving of events.
pub open spec fn session_run(s: Session, evs: Seq<SessionEvent>) -> Session
    decreases evs.len(),
{
    if evs.len() == 0 {
        s
    } else {
        session_transition(session_run(s, evs.drop_last()), evs.last())
    }
}

/// The subsequence of outcomes delivered to the telemetry loop.
pub open spec fn outbound_events(evs: Seq<SessionEvent>) -> Seq<TelemetryEvent>
    decreases evs.len(),
{
    if evs.len() == 0 {
        Seq::empty()
    } else {
        let rest = outbound_events(evs.drop_last());
        match evs.last() {
            SessionEvent::Outbound { ev } => rest.push(ev),
            SessionEvent::Inbound { .. } => rest,
        }
    }
}

/// The subsequence of stream events delivered to the listener task.
pub open spec fn inbound_events(evs: Seq<SessionEvent>) -> Seq<StreamEvent>
    decreases evs.len(),
{
    if evs.len() == 0 {
        Seq::empty()
    } else {
        let rest = inbound_events(evs.drop_last());
        match evs.last() {
            SessionEvent::Outbound { .. } => rest,
            SessionEvent::Inbound { ev } => rest.push(ev),
        }
    }
}

/// Listener isolation: under any interleaving, each side of the session
/// ends exactly where its own events alone take it. The inbound stream
/// terminating — however many events the scheduler slips in around it —
/// neither fails nor blocks nor in any way alters the telemetry loop, whose
/// next publish is owed exactly as if the listener were still attached; and
/// symmetrically, nothing the publisher does revives a detached listener.
pub proof fn lemma_listener_isolation(s: Session, evs: Seq<SessionEvent>)
    ensures
        session_run(s, evs).publisher == telemetry_run(s.publisher, outbound_events(evs)),
        session_run(s, evs).listener == listener_run(s.listener, inbound_events(evs)),
    decreases evs.len(),
{
    if evs.len() > 0 {
        lemma_listener_isolation(s, evs.drop_last());
        match evs.last() {
            SessionEvent::Outbound { ev } => {
                let t = outbound_events(evs.drop_last());
                assert(t.push(ev).drop_last() =~= t);
                assert(inbound_events(evs) == inbound_events(evs.drop_last()));
            },
            SessionEvent::Inbound { ev } => {
                let t = inbound_events(evs.drop_last());
                assert(t.push(ev).drop_last() =~= t);
                assert(outbound_events(evs) == outbound_events(evs.drop_last()));
            },
        }
    }
}

/// The pointed case of isolation: one broker-close event delivered to the
/// listener side leaves the publisher side identical, bit for bit.
pub proof fn lemma_stream_close_leaves_publisher(s: Session)
    ensures
        session_transition(
            s,
            SessionEvent::Inbound { ev: StreamEvent::StreamClosed },
        ).publisher == s.publisher,
{
}

} // verus!
