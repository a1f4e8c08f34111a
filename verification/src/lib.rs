//! Verified core of a single-node telemetry agent.
//!
//! The agent joins a wireless network, opens a publish/subscribe session to a
//! broker, and periodically samples a physical sensor, publishing each reading
//! as a text payload. Everything timing- or hardware-dependent (the radio, the
//! transport, the sensor's electrical protocol) lives outside this crate; what
//! is verified here is the logic that drives those collaborators: the reading
//! model and its fixed-point unit conversion, the payload encoding, the
//! connection-manager state machine, and the telemetry loop's state machine
//! together with the concurrent inbound listener.

pub mod config;
pub mod connection;
pub mod listener;
pub mod payload;
pub mod reading;
pub mod session;
pub mod telemetry;

pub use reading::Reading;
pub use reading::SampleError;
