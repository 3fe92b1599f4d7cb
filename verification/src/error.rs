//! Errors of sandbox operations.

use crate::ids::hyphenated;
use crate::sandbox::SandboxId;
use crate::text::{decimal_i64, signed_decimal};
use crate::time::{debug_text, duration_debug};
use crate::vm::error::VmError;
use std::time::Duration;
use vstd::prelude::*;
use vstd::std_specs::convert::FromSpecImpl;

verus! {

/// Errors that can occur during sandbox operations.
#[derive(Debug)]
pub enum CoreError {
    /// Error from the VM driver.
    Vm(VmError),
    /// Failed to connect to the guest agent, or an input was refused.
    Connection(String),
    /// The agent did not answer in time.
    AgentTimeout(Duration),
    /// JSON-RPC error from the agent.
    Rpc {
        /// Error code from the agent.
        code: i32,
        /// Error message from the agent.
        message: String,
    },
    /// Sandbox not found.
    NotFound(SandboxId),
    /// Invalid sandbox state for the operation.
    InvalidState {
        /// Expected state.
        expected: String,
        /// Actual state.
        actual: String,
    },
    /// JSON error, by its message.
    Json(String),
    /// I/O error, by its message.
    Io(String),
}

impl CoreError {
    /// The text that describes the error.
    pub open spec fn message_text(self) -> Seq<char> {
        match self {
            CoreError::Vm(e) => "VM error: "@ + e.message_text(),
            CoreError::Connection(m) => "connection failed: "@ + m@,
            CoreError::AgentTimeout(d) => "agent timeout after "@ + duration_debug(d),
            CoreError::Rpc { code, message } => "RPC error "@ + signed_decimal(code as int)
                + ": "@ + message@,
            CoreError::NotFound(id) => "sandbox not found: "@ + hyphenated(id.0),
            CoreError::InvalidState { expected, actual } => "invalid state: expected "@
                + expected@ + ", got "@ + actual@,
            CoreError::Json(m) => "JSON error: "@ + m@,
            CoreError::Io(m) => "I/O error: "@ + m@,
        }
    }

    /// Describes the error in words.
    pub fn message(&self) -> (s: String)
        ensures
            s@ == self.message_text(),
    {
        match self {
            CoreError::Vm(e) => {
                let inner: String = e.message();
                String::from_str("VM error: ").concat(inner.as_str())
            },
            CoreError::Connection(m) => String::from_str("connection failed: ").concat(
                m.as_str(),
            ),
            CoreError::AgentTimeout(d) => {
                let span: String = debug_text(d);
                String::from_str("agent timeout after ").concat(span.as_str())
            },
            CoreError::Rpc { code, message } => {
                let number: String = decimal_i64(*code as i64);
                String::from_str("RPC error ").concat(number.as_str()).concat(": ").concat(
                    message.as_str(),
                )
            },
            CoreError::NotFound(id) => {
                let name: String = id.to_string();
                String::from_str("sandbox not found: ").concat(name.as_str())
            },
            CoreError::InvalidState { expected, actual } => String::from_str(
                "invalid state: expected ",
            ).concat(expected.as_str()).concat(", got ").concat(actual.as_str()),
            CoreError::Json(m) => String::from_str("JSON error: ").concat(m.as_str()),
            CoreError::Io(m) => String::from_str("I/O error: ").concat(m.as_str()),
        }
    }
}

impl From<VmError> for CoreError {
    fn from(e: VmError) -> (r: CoreError) {
        CoreError::Vm(e)
    }
}

impl FromSpecImpl<VmError> for CoreError {
    open spec fn obeys_from_spec() -> bool {
        true
    }

    open spec fn from_spec(e: VmError) -> CoreError {
        CoreError::Vm(e)
    }
}

} // verus!
