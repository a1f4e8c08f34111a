use smart_home::config::AgentConfig;
use smart_home::config::ConfigError;
use smart_home::connection::CallOutcome;
use smart_home::connection::ConnectAction;
use smart_home::connection::ConnectError;
use smart_home::connection::ConnectStep;
use smart_home::connection::ConnectionManager;

fn config(name: &str, secret: &str) -> Result<AgentConfig, ConfigError> {
    AgentConfig::new(
        name.to_string(),
        secret.to_string(),
        "mqtt://broker.example.org:1883".to_string(),
        "telemetry-agent".to_string(),
        "telemetry/readings".to_string(),
        2000,
        500,
    )
}

#[test]
fn accepts_well_formed_credentials() {
    let cfg = config("home-network", "long enough secret").unwrap();
    assert_eq!(cfg.network_name, "home-network");
    assert_eq!(cfg.network_secret, "long enough secret");
    assert_eq!(cfg.topic, "telemetry/readings");
    assert_eq!(cfg.sample_interval_millis, 2000);
    assert_eq!(cfg.startup_grace_millis, 500);
}

#[test]
fn rejects_an_empty_network_name() {
    assert!(matches!(config("", "long enough secret"), Err(ConfigError::EmptyNetworkName)));
}

#[test]
fn rejects_a_short_secret() {
    assert!(matches!(config("home-network", "short"), Err(ConfigError::SecretTooShort)));
    // Exactly the minimum length is accepted.
    assert!(config("home-network", "12345678").is_ok());
}

#[test]
fn connects_through_the_full_call_sequence() {
    let mut m = ConnectionManager::new();
    assert_eq!(m.next_action(), ConnectAction::Call { step: ConnectStep::Configure });
    m.apply(CallOutcome::Done);
    assert_eq!(m.next_action(), ConnectAction::Call { step: ConnectStep::StartRadio });
    m.apply(CallOutcome::Done);
    assert_eq!(m.next_action(), ConnectAction::Call { step: ConnectStep::Associate });
    m.apply(CallOutcome::Done);
    assert_eq!(m.next_action(), ConnectAction::Call { step: ConnectStep::AwaitLink });
    m.apply(CallOutcome::LinkReady { address: 0xC0A8_0142 });
    assert!(m.is_connected());
    assert_eq!(m.next_action(), ConnectAction::Report { address: 0xC0A8_0142 });
}

// Credentials that fail to associate yield a connection error, and the
// manager never reports a ready link, so the telemetry loop never starts.
#[test]
fn failed_association_aborts_and_never_reports() {
    let mut m = ConnectionManager::new();
    m.apply(CallOutcome::Done); // configure
    m.apply(CallOutcome::Done); // start radio
    m.apply(CallOutcome::CallFailed); // associate
    assert!(!m.is_connected());
    assert_eq!(m.next_action(), ConnectAction::Abort { cause: ConnectError::AssociationFailed });
    // Whatever else the provider reports, the failure is final: no retry,
    // no late report.
    m.apply(CallOutcome::Done);
    m.apply(CallOutcome::LinkReady { address: 7 });
    assert_eq!(m.next_action(), ConnectAction::Abort { cause: ConnectError::AssociationFailed });
}

#[test]
fn each_step_maps_to_its_own_failure_cause() {
    let mut m = ConnectionManager::new();
    m.apply(CallOutcome::CallFailed);
    assert_eq!(
        m.next_action(),
        ConnectAction::Abort { cause: ConnectError::ConfigurationRejected },
    );

    let mut m = ConnectionManager::new();
    m.apply(CallOutcome::Done);
    m.apply(CallOutcome::CallFailed);
    assert_eq!(m.next_action(), ConnectAction::Abort { cause: ConnectError::RadioStartFailed });

    let mut m = ConnectionManager::new();
    m.apply(CallOutcome::Done);
    m.apply(CallOutcome::Done);
    m.apply(CallOutcome::Done);
    m.apply(CallOutcome::CallFailed);
    assert_eq!(m.next_action(), ConnectAction::Abort { cause: ConnectError::LinkTimeout });
}
