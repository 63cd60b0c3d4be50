//! The failures that the facade reports.

use crate::state::{CommandKind, DroneState};
use vstd::prelude::*;
use vstd::string::StringExecFns;

verus! {

/// Why an operation failed.
#[derive(Clone, Debug, PartialEq, Eq)]
pub enum DroneError {
    /// The backend is unreachable, or its health check failed.
    Connect(String),
    /// The transport failed below the protocol.
    Io(String),
    /// The service answered with a non-success status, carried in `status`
    /// with the raw body in `detail`, or a payload did not decode.
    Protocol { status: Option<u16>, detail: String },
    /// `command` was issued while the vehicle was in `state`, from which the
    /// transition table forbids it.
    State { command: CommandKind, state: DroneState },
}

/// A failure as contracts speak of it: [`DroneError`] with each text as a
/// sequence of characters.
pub enum Failure {
    Connect(Seq<char>),
    Io(Seq<char>),
    Protocol { status: Option<u16>, detail: Seq<char> },
    State { command: CommandKind, state: DroneState },
}

impl View for DroneError {
    type V = Failure;

    open spec fn view(&self) -> Failure {
        match *self {
            DroneError::Connect(detail) => Failure::Connect(detail@),
            DroneError::Io(detail) => Failure::Io(detail@),
            DroneError::Protocol { status, detail } => Failure::Protocol { status, detail: detail@ },
            DroneError::State { command, state } => Failure::State { command, state },
        }
    }
}

/// `r` is the failure `failure`.
pub open spec fn failed_with<T>(r: Result<T, DroneError>, failure: Failure) -> bool {
    match r {
        Ok(_) => false,
        Err(e) => e@ == failure,
    }
}

/// `r` is a protocol failure without a status: a payload that did not
/// decode, whatever the description of what was wrong with it.
pub open spec fn failed_to_decode<T>(r: Result<T, DroneError>) -> bool {
    match r {
        Ok(_) => false,
        Err(e) => e@ is Protocol && e@->status is None,
    }
}

/// The text of the invalid-state failure for `command` issued from `state`.
pub open spec fn state_error_text(command: CommandKind, state: DroneState) -> Seq<char> {
    "invalid state: cannot "@ + command.name_text() + " from "@ + state.name_text()
}

impl DroneError {
    /// The text that [`DroneError::message`] returns.
    pub open spec fn message_text(self) -> Seq<char> {
        match self {
            DroneError::Connect(detail) => "connection failed: "@ + detail@,
            DroneError::Io(detail) => "I/O error: "@ + detail@,
            DroneError::Protocol { status, detail } => "protocol error: "@ + detail@,
            DroneError::State { command, state } => state_error_text(command, state),
        }
    }

    /// A description of the failure for the caller to show.
    pub fn message(&self) -> (r: String)
        ensures
            r@ == self.message_text(),
    {
        match self {
            DroneError::Connect(detail) => {
                let mut text = String::from_str("connection failed: ");
                text.append(detail.as_str());
                text
            },
            DroneError::Io(detail) => {
                let mut text = String::from_str("I/O error: ");
                text.append(detail.as_str());
                text
            },
            DroneError::Protocol { status, detail } => {
                let mut text = String::from_str("protocol error: ");
                text.append(detail.as_str());
                text
            },
            DroneError::State { command, state } => {
                let mut text = String::from_str("invalid state: cannot ");
                text.append(command.name());
                text.append(" from ");
                text.append(state.name());
                text
            },
        }
    }

    /// The status code that the service answered with, where the failure is
    /// a protocol failure that carries one.
    pub fn status_code(&self) -> (r: Option<u16>)
        ensures
            r == match *self {
                DroneError::Protocol { status, .. } => status,
                _ => None,
            },
    {
        match self {
            DroneError::Protocol { status, .. } => *status,
            _ => None,
        }
    }
}

} // verus!
