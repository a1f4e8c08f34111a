use smart_home::config::AgentConfig;
use smart_home::listener::Listener;
use smart_home::listener::StreamEvent;
use smart_home::payload::encode_reading;
use smart_home::reading::Reading;
use smart_home::reading::SampleError;
use smart_home::telemetry::QosLevel;
use smart_home::telemetry::SessionError;
use smart_home::telemetry::TelemetryAction;
use smart_home::telemetry::TelemetryEvent;
use smart_home::telemetry::TelemetryLoop;
use smart_home::telemetry::TelemetryPhase;

const TOPIC: &str = "telemetry/readings";

fn agent_config() -> AgentConfig {
    AgentConfig::new(
        "home-network".to_string(),
        "long enough secret".to_string(),
        "mqtt://broker.example.org:1883".to_string(),
        "telemetry-agent".to_string(),
        TOPIC.to_string(),
        2000,
        500,
    )
    .unwrap()
}

fn fresh_loop() -> TelemetryLoop {
    TelemetryLoop::new(&agent_config())
}

/// Runs the startup sequence: subscribe acknowledged, grace elapsed.
fn past_startup(t: &mut TelemetryLoop) {
    t.on_event(TelemetryEvent::SubscribeDone);
    t.on_event(TelemetryEvent::GraceElapsed);
}

/// The payload of the publish the loop currently owes.
fn owed_payload(t: &TelemetryLoop) -> Vec<u8> {
    match t.next_action() {
        TelemetryAction::Publish { topic, qos, retain, payload } => {
            assert_eq!(topic, TOPIC);
            assert_eq!(qos, QosLevel::AtMostOnce);
            assert!(!retain);
            payload
        },
        other => panic!("expected a publish to be owed, got {:?}", other),
    }
}

#[test]
fn subscribe_and_grace_strictly_precede_the_first_publish() {
    let mut t = fresh_loop();
    match t.next_action() {
        TelemetryAction::Subscribe { topic, qos } => {
            assert_eq!(topic, TOPIC);
            assert_eq!(qos, QosLevel::AtMostOnce);
        },
        other => panic!("expected the startup subscribe, got {:?}", other),
    }
    t.on_event(TelemetryEvent::SubscribeDone);
    match t.next_action() {
        TelemetryAction::WaitGrace { millis } => assert_eq!(millis, 500),
        other => panic!("expected the grace wait, got {:?}", other),
    }
    t.on_event(TelemetryEvent::GraceElapsed);
    assert!(matches!(t.next_action(), TelemetryAction::Sample));
    t.on_event(TelemetryEvent::SampleDone { temperature_tenths: 253, humidity_tenths: 602 });
    assert_eq!(t.phase, TelemetryPhase::Publishing);
    owed_payload(&t);
}

#[test]
fn subscribed_and_published_topics_are_identical_across_a_session() {
    let mut t = fresh_loop();
    let subscribed = match t.next_action() {
        TelemetryAction::Subscribe { topic, .. } => topic,
        other => panic!("expected the startup subscribe, got {:?}", other),
    };
    past_startup(&mut t);
    for i in 0..3u16 {
        t.on_event(TelemetryEvent::SampleDone { temperature_tenths: 200, humidity_tenths: i });
        match t.next_action() {
            TelemetryAction::Publish { topic, .. } => assert_eq!(topic, subscribed),
            other => panic!("expected a publish, got {:?}", other),
        }
        t.on_event(TelemetryEvent::PublishDone);
        t.on_event(TelemetryEvent::SleepElapsed);
    }
}

// Three consecutive sampling failures followed by one success: four publish
// payloads, three all-zero, one real.
#[test]
fn three_failures_then_a_success_publish_four_payloads() {
    let mut t = fresh_loop();
    past_startup(&mut t);
    let mut payloads: Vec<Vec<u8>> = Vec::new();
    let failures = [
        SampleError::NoResponse,
        SampleError::ChecksumMismatch,
        SampleError::TimingViolation,
    ];
    for cause in failures {
        t.on_event(TelemetryEvent::SampleFailed { cause });
        payloads.push(owed_payload(&t));
        t.on_event(TelemetryEvent::PublishDone);
        t.on_event(TelemetryEvent::SleepElapsed);
    }
    t.on_event(TelemetryEvent::SampleDone { temperature_tenths: 253, humidity_tenths: 602 });
    payloads.push(owed_payload(&t));
    t.on_event(TelemetryEvent::PublishDone);

    assert_eq!(payloads.len(), 4);
    let zero = encode_reading(&Reading::zero());
    assert_eq!(payloads[0], zero);
    assert_eq!(payloads[1], zero);
    assert_eq!(payloads[2], zero);
    assert_eq!(payloads[3], encode_reading(&Reading::from_raw(253, 602)));
    assert_eq!(t.published, 4);
}

// With a 2 s interval and 10 s of runtime after startup, between 4 and 5
// publishes occur.
#[test]
fn ten_seconds_at_two_second_interval_publish_four_or_five_times() {
    let mut t = fresh_loop();
    past_startup(&mut t);
    let runtime_millis: u64 = 10_000;
    let mut clock_millis: u64 = 0;
    let mut publishes: u64 = 0;
    while clock_millis < runtime_millis {
        t.on_event(TelemetryEvent::SampleDone { temperature_tenths: 215, humidity_tenths: 487 });
        owed_payload(&t);
        t.on_event(TelemetryEvent::PublishDone);
        publishes += 1;
        match t.next_action() {
            TelemetryAction::Sleep { millis } => clock_millis += millis,
            other => panic!("expected the inter-tick sleep, got {:?}", other),
        }
        t.on_event(TelemetryEvent::SleepElapsed);
    }
    assert!(publishes >= 4, "only {} publishes in {} ms", publishes, runtime_millis);
    assert!(publishes <= 5, "{} publishes in {} ms", publishes, runtime_millis);
    assert_eq!(t.published, publishes);
}

// Closing the inbound stream neither fails nor blocks the telemetry loop's
// next publish.
#[test]
fn broker_close_leaves_the_publisher_side_untouched() {
    let mut t = fresh_loop();
    let mut l = Listener::new();
    past_startup(&mut t);
    l.on_event(StreamEvent::MessageArrived);
    t.on_event(TelemetryEvent::SampleDone { temperature_tenths: 100, humidity_tenths: 500 });

    // The broker closes the connection; the listener exits silently.
    l.on_event(StreamEvent::StreamClosed);
    assert!(!l.is_attached());
    assert_eq!(l.received, 1);

    // The telemetry loop still owes exactly the same publish, and it
    // completes as if the listener were still attached.
    let payload = owed_payload(&t);
    assert_eq!(payload, encode_reading(&Reading::from_raw(100, 500)));
    t.on_event(TelemetryEvent::PublishDone);
    assert_eq!(t.published, 1);
    assert_eq!(t.phase, TelemetryPhase::Sleeping);

    // And nothing the publisher does revives the listener.
    l.on_event(StreamEvent::MessageArrived);
    assert!(!l.is_attached());
    assert_eq!(l.received, 1);
}

#[test]
fn listener_counts_messages_until_the_stream_fails() {
    let mut l = Listener::new();
    l.on_event(StreamEvent::MessageArrived);
    l.on_event(StreamEvent::MessageArrived);
    assert!(l.is_attached());
    assert_eq!(l.received, 2);
    l.on_event(StreamEvent::StreamFailed);
    assert!(!l.is_attached());
}

#[test]
fn subscribe_failure_halts_with_its_cause() {
    let mut t = fresh_loop();
    t.on_event(TelemetryEvent::SubscribeFailed { cause: SessionError::NotConnected });
    assert_eq!(t.phase, TelemetryPhase::Halted);
    match t.next_action() {
        TelemetryAction::Stop { cause } => assert_eq!(cause, SessionError::NotConnected),
        other => panic!("expected a stop, got {:?}", other),
    }
}

#[test]
fn publish_failure_is_fatal_and_final() {
    let mut t = fresh_loop();
    past_startup(&mut t);
    t.on_event(TelemetryEvent::SampleDone { temperature_tenths: 1, humidity_tenths: 2 });
    t.on_event(TelemetryEvent::PublishFailed { cause: SessionError::BrokerUnreachable });
    assert_eq!(t.phase, TelemetryPhase::Halted);
    match t.next_action() {
        TelemetryAction::Stop { cause } => assert_eq!(cause, SessionError::BrokerUnreachable),
        other => panic!("expected a stop, got {:?}", other),
    }
    // Halting is terminal: later outcomes change nothing.
    t.on_event(TelemetryEvent::SampleDone { temperature_tenths: 9, humidity_tenths: 9 });
    assert_eq!(t.phase, TelemetryPhase::Halted);
    assert_eq!(t.published, 0);
}
