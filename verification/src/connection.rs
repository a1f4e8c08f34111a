//! The Connection Manager.
//!
//! Bringing the network link up is a fixed sequence of blocking provider
//! calls — configure, start the radio, associate, wait for an address — each
//! of which may fail. The calls themselves are the Network Provider's (they
//! live outside this crate); what is verified here is the state machine that
//! sequences them: which call is owed next in each state, how each outcome
//! moves the lifecycle `Unconfigured -> Starting -> Connected`, and that any
//! failure lands in the terminal `Failed` state with the right cause, from
//! which no further call is ever requested. No retry is performed: retry
//! policy belongs to the caller.

use vstd::prelude::*;

verus! {

/// The cause a connection failure carries.
#[derive(Clone, Copy, PartialEq, Eq, Structural, Debug)]
pub enum ConnectError {
    /// The provider rejected the configuration (malformed credentials).
    ConfigurationRejected,
    /// The radio failed to start.
    RadioStartFailed,
    /// Association with the network failed or timed out.
    AssociationFailed,
    /// The interface never reported a usable address.
    LinkTimeout,
}

/// One of the provider calls the manager sequences.
#[derive(Clone, Copy, PartialEq, Eq, Structural, Debug)]
pub enum ConnectStep {
    /// `configure(name, auth_mode, secret)`.
    Configure,
    /// `start()`.
    StartRadio,
    /// `connect()` — initiate association.
    Associate,
    /// `wait_link_up()` — block until an address is assigned.
    AwaitLink,
}

/// Lifecycle of the link, owned exclusively by the manager.
#[derive(Clone, Copy, PartialEq, Eq, Structural, Debug)]
pub enum ConnectionState {
    /// No provider call has been made yet.
    Unconfigured,
    /// The link is coming up; `step` is the call whose outcome is awaited.
    Starting { step: ConnectStep },
    /// The interface holds a usable address; terminal.
    Connected { address: u32 },
    /// A provider call failed; terminal, nothing is retried.
    Failed { cause: ConnectError },
}

/// What the caller must do next for a manager in a given state.
#[derive(Clone, Copy, PartialEq, Eq, Structural, Debug)]
pub enum ConnectAction {
    /// Perform this provider call and feed its outcome back.
    Call { step: ConnectStep },
    /// The link is ready: hand the assigned address to the caller.
    Report { address: u32 },
    /// Connecting failed: surface a connection error with this cause.
    Abort { cause: ConnectError },
}

/// The outcome of one provider call, as the caller observed it.
#[derive(Clone, Copy, PartialEq, Eq, Structural, Debug)]
pub enum CallOutcome {
    /// A configure/start/associate call returned successfully.
    Done,
    /// `wait_link_up` returned this assigned address.
    LinkReady { address: u32 },
    /// The call failed.
    CallFailed,
}

/// The action owed in state `s`: the next call while the link is coming up,
/// a report once connected, an abort once failed.
pub open spec fn connect_action_of(s: ConnectionState) -> ConnectAction {
    match s {
        ConnectionState::Unconfigured => ConnectAction::Call { step: ConnectStep::Configure },
        ConnectionState::Starting { step } => ConnectAction::Call { step },
        ConnectionState::Connected { address } => ConnectAction::Report { address },
        ConnectionState::Failed { cause } => ConnectAction::Abort { cause },
    }
}

/// The error a failing call maps to, per step.
pub open spec fn failure_cause_of(step: ConnectStep) -> ConnectError {
    match step {
        ConnectStep::Configure => ConnectError::ConfigurationRejected,
        ConnectStep::StartRadio => ConnectError::RadioStartFailed,
        ConnectStep::Associate => ConnectError::AssociationFailed,
        ConnectStep::AwaitLink => ConnectError::LinkTimeout,
    }
}

/// The step whose outcome state `s` is waiting for, `Configure` when nothing
/// has been called yet.
pub open spec fn pending_step_of(s: ConnectionState) -> ConnectStep {
    match s {
        ConnectionState::Unconfigured => ConnectStep::Configure,
        ConnectionState::Starting { step } => step,
        ConnectionState::Connected { .. } => ConnectStep::AwaitLink,
        ConnectionState::Failed { .. } => ConnectStep::AwaitLink,
    }
}

/// How one call outcome moves the lifecycle. `Connected` and `Failed` are
/// terminal; an outcome that the pending call cannot produce (an address
/// from a unit call, a unit return from `wait_link_up`) changes nothing.
pub open spec fn connect_transition(s: ConnectionState, o: CallOutcome) -> ConnectionState {
    match s {
        ConnectionState::Connected { .. } => s,
        ConnectionState::Failed { .. } => s,
        _ => {
            let step = pending_step_of(s);
            match o {
                CallOutcome::Done => match step {
                    ConnectStep::Configure => ConnectionState::Starting {
                        step: ConnectStep::StartRadio,
                    },
                    ConnectStep::StartRadio => ConnectionState::Starting {
                        step: ConnectStep::Associate,
                    },
                    ConnectStep::Associate => ConnectionState::Starting {
                        step: ConnectStep::AwaitLink,
                    },
                    ConnectStep::AwaitLink => s,
                },
                CallOutcome::LinkReady { address } => match step {
                    ConnectStep::AwaitLink => ConnectionState::Connected { address },
                    _ => s,
                },
                CallOutcome::CallFailed => ConnectionState::Failed {
                    cause: failure_cause_of(step),
                },
            }
        },
    }
}

/// Once a connect attempt has failed, no outcome revives it: failures are
/// surfaced, never retried inside the manager.
pub proof fn lemma_failure_is_terminal(s: ConnectionState, o: CallOutcome)
    requires
        s is Failed,
    ensures
        connect_transition(s, o) == s,
{
}

/// Owns the connection lifecycle; transitions are driven by the blocking
/// calls' outcomes, never concurrently.
pub struct ConnectionManager {
    /// The current lifecycle state.
    pub state: ConnectionState,
}

impl ConnectionManager {
    /// A fresh manager: nothing configured, nothing started.
    pub fn new() -> (m: ConnectionManager)
        ensures
            m.state == ConnectionState::Unconfigured,
    {
        ConnectionManager { state: ConnectionState::Unconfigured }
    }

    /// The next thing the caller must do; a `Report` comes out exactly when
    /// the manager is connected, an `Abort` exactly when it has failed.
    pub fn next_action(&self) -> (a: ConnectAction)
        ensures
            a == connect_action_of(self.state),
    {
        match self.state {
            ConnectionState::Unconfigured => ConnectAction::Call { step: ConnectStep::Configure },
            ConnectionState::Starting { step } => ConnectAction::Call { step },
            ConnectionState::Connected { address } => ConnectAction::Report { address },
            ConnectionState::Failed { cause } => ConnectAction::Abort { cause },
        }
    }

    /// Feeds the outcome of the call just performed into the lifecycle.
    pub fn apply(&mut self, o: CallOutcome)
        ensures
            final(self).state == connect_transition(old(self).state, o),
    {
        self.state = match self.state {
            ConnectionState::Connected { address } => ConnectionState::Connected { address },
            ConnectionState::Failed { cause } => ConnectionState::Failed { cause },
            _ => {
                let step = match self.state {
                    ConnectionState::Starting { step } => step,
                    _ => ConnectStep::Configure,
                };
                match o {
                    CallOutcome::Done => match step {
                        ConnectStep::Configure => ConnectionState::Starting {
                            step: ConnectStep::StartRadio,
                        },
                        ConnectStep::StartRadio => ConnectionState::Starting {
                            step: ConnectStep::Associate,
                        },
                        ConnectStep::Associate => ConnectionState::Starting {
                            step: ConnectStep::AwaitLink,
                        },
                        ConnectStep::AwaitLink => self.state,
                    },
                    CallOutcome::LinkReady { address } => match step {
                        ConnectStep::AwaitLink => ConnectionState::Connected { address },
                        _ => self.state,
                    },
                    CallOutcome::CallFailed => ConnectionState::Failed {
                        cause: failure_cause_of_exec(step),
                    },
                }
            },
        };
    }

    /// Whether the link is up and holds an address.
    pub fn is_connected(&self) -> (r: bool)
        ensures
            r == (self.state is Connected),
    {
        match self.state {
            ConnectionState::Connected { .. } => true,
            _ => false,
        }
    }
}

/// Executable twin of [`failure_cause_of`].
fn failure_cause_of_exec(step: ConnectStep) -> (c: ConnectError)
    ensures
        c == failure_cause_of(step),
{
    match step {
        ConnectStep::Configure => ConnectError::ConfigurationRejected,
        ConnectStep::StartRadio => ConnectError::RadioStartFailed,
        ConnectStep::Associate => ConnectError::AssociationFailed,
        ConnectStep::AwaitLink => ConnectError::LinkTimeout,
    }
}

} // verus!
