//! The sensor reading model.
//!
//! The sensor driver reports temperature and humidity as fixed-point tenths
//! (a raw value of 253 means 25.3). A [`Reading`] keeps both fields in that
//! exact integer representation: temperature in tenths of a degree Celsius,
//! humidity in tenths of a percent relative humidity. Conversion to the
//! public one-decimal unit happens only when a reading is encoded into a
//! payload, so no precision is ever lost inside the agent.

use vstd::prelude::*;

verus! {

/// Why a single measurement cycle against the sensor failed.
///
/// The driver's protocol can fail in three ways; all of them are recoverable
/// by the telemetry loop (which substitutes [`Reading::zero`]), and all of
/// them can be caught generically by matching on the enum.
#[derive(Clone, Copy, PartialEq, Eq, Structural, Debug)]
pub enum SampleError {
    /// The sensor answered, but the checksum over its data bits was wrong.
    ChecksumMismatch,
    /// A signal edge arrived outside the protocol's timing window.
    TimingViolation,
    /// The sensor never answered the start signal.
    NoResponse,
}

/// The reading that the fallback policy produces from a sample outcome: the
/// measured tenths on success, the zero reading on any failure.
pub open spec fn reading_of_sample(outcome: Result<(i16, u16), SampleError>) -> Reading {
    match outcome {
        Ok((t, h)) => Reading { temperature_tenths: t, humidity_tenths: h },
        Err(_) => Reading::zero_spec(),
    }
}

/// One measurement: temperature in tenths of °C, humidity in tenths of %RH.
///
/// Immutable once produced. The all-zero value doubles as the documented
/// fallback that the telemetry loop publishes when sampling fails, so a
/// published zero reading is ambiguous between a true zero measurement and a
/// sensor failure.
#[derive(Clone, Copy, PartialEq, Eq, Structural, Debug)]
pub struct Reading {
    /// Signed tenths of a degree Celsius.
    pub temperature_tenths: i16,
    /// Tenths of a percent relative humidity.
    pub humidity_tenths: u16,
}

impl Reading {
    /// The explicit fallback value: both fields zero.
    pub open spec fn zero_spec() -> Reading {
        Reading { temperature_tenths: 0, humidity_tenths: 0 }
    }

    /// The reading published in place of a failed sample.
    pub fn zero() -> (r: Reading)
        ensures
            r == Reading::zero_spec(),
    {
        Reading { temperature_tenths: 0, humidity_tenths: 0 }
    }

    /// Builds a reading from the driver's raw fixed-point tenths, unchanged:
    /// the raw value *is* the reading, ten times the public unit.
    pub fn from_raw(temperature_tenths: i16, humidity_tenths: u16) -> (r: Reading)
        ensures
            r.temperature_tenths == temperature_tenths,
            r.humidity_tenths == humidity_tenths,
    {
        Reading { temperature_tenths, humidity_tenths }
    }

    /// Applies the fallback policy to a sample outcome: a successful
    /// measurement is converted as [`Reading::from_raw`] does; a failure of
    /// any cause becomes the zero reading rather than skipping the publish.
    pub fn from_sample(outcome: Result<(i16, u16), SampleError>) -> (r: Reading)
        ensures
            r == reading_of_sample(outcome),
    {
        match outcome {
            Ok((t, h)) => Reading { temperature_tenths: t, humidity_tenths: h },
            Err(_) => Reading { temperature_tenths: 0, humidity_tenths: 0 },
        }
    }
}

} // verus!
