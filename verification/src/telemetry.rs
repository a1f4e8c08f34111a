//! The Telemetry Loop.
//!
//! The steady-state driver of the agent is a state machine: one subscribe,
//! one grace wait, then an unbounded repetition of sample, publish, sleep.
//! The blocking work — the transport calls, the measurement, the sleeps — is
//! performed outside this crate; the machine only decides. Each state names
//! the operation whose outcome it awaits, [`TelemetryLoop::next_action`]
//! says which operation is owed, and [`TelemetryLoop::on_event`] folds the
//! outcome back in, exactly as [`telemetry_transition`] describes.
//!
//! The policies verified here: a failed sample is replaced by the zero
//! reading rather than skipping the publish; a subscribe or publish failure
//! halts the loop with its cause and nothing is retried; the topic never
//! changes, so the one subscribe and every publish use the same topic; and
//! no publish is owed before the subscribe has completed and the grace
//! period has elapsed, in that order.

use vstd::prelude::*;
use crate::config::AgentConfig;
use crate::payload::encode_reading;
use crate::payload::payload_spec;
use crate::reading::Reading;
use crate::reading::SampleError;
use crate::reading::reading_of_sample;

verus! {

/// Failure of the messaging transport, surfaced by subscribe or publish.
#[derive(Clone, Copy, PartialEq, Eq, Structural, Debug)]
pub enum SessionError {
    /// The transport is not connected.
    NotConnected,
    /// The broker could not be reached.
    BrokerUnreachable,
}

/// Delivery guarantee requested from the transport. The agent uses
/// at-most-once throughout: fire-and-forget, loss accepted.
#[derive(Clone, Copy, PartialEq, Eq, Structural, Debug)]
pub enum QosLevel {
    /// No acknowledgment, no retry; a message may be lost, never duplicated.
    AtMostOnce,
    /// Acknowledged; duplicates possible.
    AtLeastOnce,
    /// Acknowledged and deduplicated.
    ExactlyOnce,
}

/// The operation whose outcome the loop is waiting for.
#[derive(Clone, Copy, PartialEq, Eq, Structural, Debug)]
pub enum TelemetryPhase {
    /// The one startup subscribe is outstanding.
    Subscribing,
    /// The startup grace period is running.
    InGrace,
    /// A sensor measurement is outstanding.
    Sampling,
    /// A publish of the pending reading is outstanding.
    Publishing,
    /// The inter-tick sleep is running.
    Sleeping,
    /// A fatal error stopped the loop; terminal.
    Halted,
}

/// The outcome of the operation the loop was waiting for.
#[derive(Clone, Copy, PartialEq, Eq, Structural, Debug)]
pub enum TelemetryEvent {
    /// The subscribe completed.
    SubscribeDone,
    /// The subscribe failed; fatal.
    SubscribeFailed { cause: SessionError },
    /// The startup grace period is over.
    GraceElapsed,
    /// The measurement succeeded with these raw fixed-point values.
    SampleDone { temperature_tenths: i16, humidity_tenths: u16 },
    /// The measurement failed; the loop recovers by publishing zeros.
    SampleFailed { cause: SampleError },
    /// The publish completed.
    PublishDone,
    /// The publish failed; fatal, publishes are not retried.
    PublishFailed { cause: SessionError },
    /// The inter-tick sleep is over.
    SleepElapsed,
}

/// The operation the caller must perform next.
#[derive(Debug)]
pub enum TelemetryAction {
    /// Subscribe to the topic, then feed the result back.
    Subscribe { topic: String, qos: QosLevel },
    /// Let the startup grace period elapse.
    WaitGrace { millis: u64 },
    /// Perform one blocking measurement.
    Sample,
    /// Publish this payload, then feed the result back.
    Publish { topic: String, qos: QosLevel, retain: bool, payload: Vec<u8> },
    /// Sleep until the next tick.
    Sleep { millis: u64 },
    /// Stop the process: a session operation failed fatally.
    Stop { cause: SessionError },
}

/// A counter that sticks at its ceiling instead of wrapping.
pub open spec fn saturating_inc(n: u64) -> u64 {
    if n == u64::MAX {
        n
    } else {
        (n + 1) as u64
    }
}

/// The telemetry loop's state: the configured constants, the phase, the
/// reading currently being published, and how many publishes completed.
pub struct TelemetryLoop {
    /// The one topic, used for the subscription and for every publish.
    pub topic: String,
    /// Pause between ticks.
    pub interval_millis: u64,
    /// Grace period between subscribe completion and the first publish.
    pub grace_millis: u64,
    /// The operation currently awaited.
    pub phase: TelemetryPhase,
    /// The reading the outstanding (or last) publish carries.
    pub pending: Reading,
    /// Completed publishes, saturating.
    pub published: u64,
    /// The fatal cause, once halted.
    pub halt_cause: Option<SessionError>,
}

/// How one outcome moves the loop. Outcomes that the awaited operation
/// cannot produce change nothing, and `Halted` is terminal.
pub open spec fn telemetry_transition(s: TelemetryLoop, ev: TelemetryEvent) -> TelemetryLoop {
    match (s.phase, ev) {
        (TelemetryPhase::Subscribing, TelemetryEvent::SubscribeDone) => (TelemetryLoop {
            phase: TelemetryPhase::InGrace,
            ..s
        }),
        (TelemetryPhase::Subscribing, TelemetryEvent::SubscribeFailed { cause }) => (TelemetryLoop {
            phase: TelemetryPhase::Halted,
            halt_cause: Some(cause),
            ..s
        }),
        (TelemetryPhase::InGrace, TelemetryEvent::GraceElapsed) => (TelemetryLoop {
            phase: TelemetryPhase::Sampling,
            ..s
        }),
        (TelemetryPhase::Sampling, TelemetryEvent::SampleDone { temperature_tenths, humidity_tenths }) => (TelemetryLoop {
            phase: TelemetryPhase::Publishing,
            pending: reading_of_sample(Ok((temperature_tenths, humidity_tenths))),
            ..s
        }),
        (TelemetryPhase::Sampling, TelemetryEvent::SampleFailed { cause }) => (TelemetryLoop {
            phase: TelemetryPhase::Publishing,
            pending: reading_of_sample(Err(cause)),
            ..s
        }),
        (TelemetryPhase::Publishing, TelemetryEvent::PublishDone) => (TelemetryLoop {
            phase: TelemetryPhase::Sleeping,
            published: saturating_inc(s.published),
            ..s
        }),
        (TelemetryPhase::Publishing, TelemetryEvent::PublishFailed { cause }) => (TelemetryLoop {
            phase: TelemetryPhase::Halted,
            halt_cause: Some(cause),
            ..s
        }),
        (TelemetryPhase::Sleeping, TelemetryEvent::SleepElapsed) => (TelemetryLoop {
            phase: TelemetryPhase::Sampling,
            ..s
        }),
        _ => s,
    }
}

/// The state reached after consuming `evs` in order, starting from `s`.
pub open spec fn telemetry_run(s: TelemetryLoop, evs: Seq<TelemetryEvent>) -> TelemetryLoop
    decreases evs.len(),
{
    if evs.len() == 0 {
        s
    } else {
        telemetry_transition(telemetry_run(s, evs.drop_last()), evs.last())
    }
}

/// What `next_action` owes in state `s`.
pub open spec fn action_for(s: TelemetryLoop, a: TelemetryAction) -> bool {
    match s.phase {
        TelemetryPhase::Subscribing => a == (TelemetryAction::Subscribe {
            topic: s.topic,
            qos: QosLevel::AtMostOnce,
        }),
        TelemetryPhase::InGrace => a == (TelemetryAction::WaitGrace { millis: s.grace_millis }),
        TelemetryPhase::Sampling => a == TelemetryAction::Sample,
        TelemetryPhase::Publishing => a matches TelemetryAction::Publish {
            topic,
            qos,
            retain,
            payload,
        } && topic == s.topic && qos == QosLevel::AtMostOnce && retain == false && payload@
            == payload_spec(s.pending),
        TelemetryPhase::Sleeping => a == (TelemetryAction::Sleep { millis: s.interval_millis }),
        TelemetryPhase::Halted => a matches TelemetryAction::Stop { cause } && Some(cause)
            == s.halt_cause,
    }
}

impl TelemetryLoop {
    /// A halted loop always knows why it halted.
    pub open spec fn wf(&self) -> bool {
        self.phase is Halted ==> self.halt_cause is Some
    }

    /// The loop as it starts: subscribe first, nothing published, the zero
    /// reading pending.
    pub fn new(cfg: &AgentConfig) -> (s: TelemetryLoop)
        ensures
            s.topic == cfg.topic,
            s.interval_millis == cfg.sample_interval_millis,
            s.grace_millis == cfg.startup_grace_millis,
            s.phase == TelemetryPhase::Subscribing,
            s.pending == Reading::zero_spec(),
            s.published == 0,
            s.halt_cause is None,
            s.wf(),
    {
        TelemetryLoop {
            topic: cfg.topic.clone(),
            interval_millis: cfg.sample_interval_millis,
            grace_millis: cfg.startup_grace_millis,
            phase: TelemetryPhase::Subscribing,
            pending: Reading::zero(),
            published: 0,
            halt_cause: None,
        }
    }

    /// The operation owed in the current phase. In particular: a `Publish`
    /// comes out exactly in the `Publishing` phase, always on the configured
    /// topic, at-most-once, unretained, carrying the pending reading's
    /// payload; and the startup `Subscribe` uses that same topic.
    pub fn next_action(&self) -> (a: TelemetryAction)
        requires
            self.wf(),
        ensures
            action_for(*self, a),
    {
        match self.phase {
            TelemetryPhase::Subscribing => TelemetryAction::Subscribe {
                topic: self.topic.clone(),
                qos: QosLevel::AtMostOnce,
            },
            TelemetryPhase::InGrace => TelemetryAction::WaitGrace { millis: self.grace_millis },
            TelemetryPhase::Sampling => TelemetryAction::Sample,
            TelemetryPhase::Publishing => TelemetryAction::Publish {
                topic: self.topic.clone(),
                qos: QosLevel::AtMostOnce,
                retain: false,
                payload: encode_reading(&self.pending),
            },
            TelemetryPhase::Sleeping => TelemetryAction::Sleep { millis: self.interval_millis },
            TelemetryPhase::Halted => match self.halt_cause {
                Some(cause) => TelemetryAction::Stop { cause },
                None => vstd::pervasive::unreached(),
            },
        }
    }

    /// Folds the outcome of the awaited operation into the state, exactly as
    /// [`telemetry_transition`] describes.
    pub fn on_event(&mut self, ev: TelemetryEvent)
        ensures
            *final(self) == telemetry_transition(*old(self), ev),
    {
        match (self.phase, ev) {
            (TelemetryPhase::Subscribing, TelemetryEvent::SubscribeDone) => {
                self.phase = TelemetryPhase::InGrace;
            },
            (TelemetryPhase::Subscribing, TelemetryEvent::SubscribeFailed { cause }) => {
                self.phase = TelemetryPhase::Halted;
                self.halt_cause = Some(cause);
            },
            (TelemetryPhase::InGrace, TelemetryEvent::GraceElapsed) => {
                self.phase = TelemetryPhase::Sampling;
            },
            (TelemetryPhase::Sampling, TelemetryEvent::SampleDone { temperature_tenths, humidity_tenths }) => {
                self.phase = TelemetryPhase::Publishing;
                self.pending = Reading::from_sample(Ok((temperature_tenths, humidity_tenths)));
            },
            (TelemetryPhase::Sampling, TelemetryEvent::SampleFailed { cause }) => {
                self.phase = TelemetryPhase::Publishing;
                self.pending = Reading::from_sample(Err(cause));
            },
            (TelemetryPhase::Publishing, TelemetryEvent::PublishDone) => {
                self.phase = TelemetryPhase::Sleeping;
                if self.published < u64::MAX {
                    self.published = self.published + 1;
                }
            },
            (TelemetryPhase::Publishing, TelemetryEvent::PublishFailed { cause }) => {
                self.phase = TelemetryPhase::Halted;
                self.halt_cause = Some(cause);
            },
            (TelemetryPhase::Sleeping, TelemetryEvent::SleepElapsed) => {
                self.phase = TelemetryPhase::Sampling;
            },
            _ => {},
        }
    }
}

/// A transition never breaks well-formedness: every halt records its cause.
pub proof fn lemma_transition_preserves_wf(s: TelemetryLoop, ev: TelemetryEvent)
    requires
        s.wf(),
    ensures
        telemetry_transition(s, ev).wf(),
{
}

/// Topic symmetry: no sequence of outcomes ever changes the topic (nor the
/// timing constants). With [`TelemetryLoop::next_action`]'s contract this
/// makes the topic of the startup subscribe and of every later publish
/// identical for the lifetime of the session.
pub proof fn lemma_topic_symmetry(s: TelemetryLoop, evs: Seq<TelemetryEvent>)
    ensures
        telemetry_run(s, evs).topic == s.topic,
        telemetry_run(s, evs).interval_millis == s.interval_millis,
        telemetry_run(s, evs).grace_millis == s.grace_millis,
    decreases evs.len(),
{
    if evs.len() > 0 {
        lemma_topic_symmetry(s, evs.drop_last());
    }
}

/// Whether some outcome in `evs` acknowledged the subscribe.
pub open spec fn subscribe_acked(evs: Seq<TelemetryEvent>) -> bool {
    exists|i: int| 0 <= i < evs.len() && evs[i] is SubscribeDone
}

/// Whether the grace period elapsed strictly after the subscribe completed.
pub open spec fn grace_after_subscribe(evs: Seq<TelemetryEvent>) -> bool {
    exists|i: int, j: int|
        0 <= i < j < evs.len() && evs[i] is SubscribeDone && evs[j] is GraceElapsed
}

proof fn lemma_acked_monotone(evs: Seq<TelemetryEvent>)
    requires
        evs.len() > 0,
        subscribe_acked(evs.drop_last()),
    ensures
        subscribe_acked(evs),
{
    let i = choose|i: int| 0 <= i < evs.drop_last().len() && evs.drop_last()[i] is SubscribeDone;
    assert(0 <= i < evs.len() && evs[i] is SubscribeDone);
}

proof fn lemma_grace_monotone(evs: Seq<TelemetryEvent>)
    requires
        evs.len() > 0,
        grace_after_subscribe(evs.drop_last()),
    ensures
        grace_after_subscribe(evs),
{
    let (i, j) = choose|i: int, j: int|
        0 <= i < j < evs.drop_last().len() && evs.drop_last()[i] is SubscribeDone
            && evs.drop_last()[j] is GraceElapsed;
    assert(0 <= i < j < evs.len() && evs[i] is SubscribeDone && evs[j] is GraceElapsed);
}

/// Startup ordering: starting from the initial `Subscribing` phase, the loop
/// can only be past the subscribe once the subscribe completed, and can only
/// be in a phase that samples, publishes or sleeps once the grace period
/// also elapsed, strictly after that completion. Since a publish is owed
/// only in the `Publishing` phase, both happen strictly before the first
/// publish is issued.
pub proof fn lemma_startup_ordering(s: TelemetryLoop, evs: Seq<TelemetryEvent>)
    requires
        s.phase is Subscribing,
    ensures
        ({
            let t = telemetry_run(s, evs);
            &&& (t.phase is InGrace || t.phase is Sampling || t.phase is Publishing
                || t.phase is Sleeping) ==> subscribe_acked(evs)
            &&& (t.phase is Sampling || t.phase is Publishing || t.phase is Sleeping)
                ==> grace_after_subscribe(evs)
        }),
    decreases evs.len(),
{
    if evs.len() > 0 {
        lemma_startup_ordering(s, evs.drop_last());
        let pre = telemetry_run(s, evs.drop_last());
        let t = telemetry_run(s, evs);
        if t.phase is InGrace || t.phase is Sampling || t.phase is Publishing
            || t.phase is Sleeping {
            if pre.phase is Subscribing {
                assert(evs.last() is SubscribeDone);
                assert(evs[evs.len() - 1] is SubscribeDone);
            } else {
                lemma_acked_monotone(evs);
            }
        }
        if t.phase is Sampling || t.phase is Publishing || t.phase is Sleeping {
            if pre.phase is InGrace {
                assert(evs.last() is GraceElapsed);
                let i = choose|i: int|
                    0 <= i < evs.drop_last().len() && evs.drop_last()[i] is SubscribeDone;
                assert(0 <= i < evs.len() - 1 && evs[i] is SubscribeDone);
                assert(evs[evs.len() - 1] is GraceElapsed);
                assert(grace_after_subscribe(evs));
            } else {
                lemma_grace_monotone(evs);
            }
        }
    }
}

} // verus!
