//! Agent configuration.
//!
//! Every option the agent needs — network credentials, broker address,
//! client identity, topic, and the two timing constants — is carried in one
//! explicit [`AgentConfig`] value handed to the components at process start;
//! there is no ambient global state. Building a configuration checks the
//! credential policy the Connection Manager assumes: a non-empty network
//! name and a secret long enough for pre-shared-key personal authentication.

use vstd::prelude::*;
use vstd::string::StrSliceExecFns;

verus! {

/// Minimum secret length under the pre-shared-key personal authentication
/// mode the agent assumes.
pub const MIN_SECRET_CHARS: usize = 8;

/// Why a configuration was rejected.
#[derive(Clone, Copy, PartialEq, Eq, Structural, Debug)]
pub enum ConfigError {
    /// The network name is empty.
    EmptyNetworkName,
    /// The secret is shorter than the authentication mode's minimum.
    SecretTooShort,
}

/// The first policy violation in a credential pair, if any: an empty network
/// name is reported before a short secret.
pub open spec fn credentials_issue(name: Seq<char>, secret: Seq<char>) -> Option<ConfigError> {
    if name.len() == 0 {
        Some(ConfigError::EmptyNetworkName)
    } else if secret.len() < MIN_SECRET_CHARS {
        Some(ConfigError::SecretTooShort)
    } else {
        None
    }
}

/// All configuration of the agent, validated once at construction.
pub struct AgentConfig {
    /// Name of the wireless network to join.
    pub network_name: String,
    /// Pre-shared secret for the network.
    pub network_secret: String,
    /// Address of the broker the session connects to.
    pub broker_url: String,
    /// Identity the session registers under.
    pub client_id: String,
    /// The one topic used for both the subscription and every publish.
    pub topic: String,
    /// Pause between telemetry ticks.
    pub sample_interval_millis: u64,
    /// Grace period between the subscribe and the first publish.
    pub startup_grace_millis: u64,
}

impl AgentConfig {
    /// Credential policy: a non-empty name and a long-enough secret.
    pub open spec fn wf(&self) -> bool {
        credentials_issue(self.network_name@, self.network_secret@) is None
    }

    /// Builds a configuration, rejecting exactly the credential pairs that
    /// violate the policy and reporting the first violation found.
    pub fn new(
        network_name: String,
        network_secret: String,
        broker_url: String,
        client_id: String,
        topic: String,
        sample_interval_millis: u64,
        startup_grace_millis: u64,
    ) -> (r: Result<AgentConfig, ConfigError>)
        ensures
            match r {
                Ok(cfg) => {
                    &&& cfg.wf()
                    &&& cfg.network_name@ == network_name@
                    &&& cfg.network_secret@ == network_secret@
                    &&& cfg.broker_url@ == broker_url@
                    &&& cfg.client_id@ == client_id@
                    &&& cfg.topic@ == topic@
                    &&& cfg.sample_interval_millis == sample_interval_millis
                    &&& cfg.startup_grace_millis == startup_grace_millis
                },
                Err(e) => Some(e) == credentials_issue(network_name@, network_secret@),
            },
    {
        if network_name.as_str().unicode_len() == 0 {
            return Err(ConfigError::EmptyNetworkName);
        }
        if network_secret.as_str().unicode_len() < MIN_SECRET_CHARS {
            return Err(ConfigError::SecretTooShort);
        }
        Ok(AgentConfig {
            network_name,
            network_secret,
            broker_url,
            client_id,
            topic,
            sample_interval_millis,
            startup_grace_millis,
        })
    }
}

} // verus!
