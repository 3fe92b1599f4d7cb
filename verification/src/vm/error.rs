//! Errors of VM operations.

use crate::time::{debug_text, duration_debug};
use std::time::Duration;
use vstd::prelude::*;

verus! {

/// Errors that can occur during VM operations.
#[derive(Debug)]
pub enum VmError {
    /// Failed to create the VM.
    Create(String),
    /// Failed to start the VM.
    Start(String),
    /// Failed to stop the VM.
    Stop(String),
    /// The VM is not in the expected state.
    InvalidState { expected: String, actual: String },
    /// Configuration error.
    Config(String),
    /// Error reported by the hypervisor's control API.
    Firepilot(String),
    /// I/O error, by its message.
    Io(String),
    /// Timeout waiting for an operation.
    Timeout(Duration),
}

impl VmError {
    /// The text that describes the error.
    pub open spec fn message_text(self) -> Seq<char> {
        match self {
            VmError::Create(m) => "failed to create VM: "@ + m@,
            VmError::Start(m) => "failed to start VM: "@ + m@,
            VmError::Stop(m) => "failed to stop VM: "@ + m@,
            VmError::InvalidState { expected, actual } => "invalid VM state: expected "@
                + expected@ + ", got "@ + actual@,
            VmError::Config(m) => "configuration error: "@ + m@,
            VmError::Firepilot(m) => "firepilot error: "@ + m@,
            VmError::Io(m) => "I/O error: "@ + m@,
            VmError::Timeout(d) => "operation timed out after "@ + duration_debug(d),
        }
    }

    /// Describes the error in words.
    pub fn message(&self) -> (s: String)
        ensures
            s@ == self.message_text(),
    {
        match self {
            VmError::Create(m) => String::from_str("failed to create VM: ").concat(m.as_str()),
            VmError::Start(m) => String::from_str("failed to start VM: ").concat(m.as_str()),
            VmError::Stop(m) => String::from_str("failed to stop VM: ").concat(m.as_str()),
            VmError::InvalidState { expected, actual } => String::from_str(
                "invalid VM state: expected ",
            ).concat(expected.as_str()).concat(", got ").concat(actual.as_str()),
            VmError::Config(m) => String::from_str("configuration error: ").concat(m.as_str()),
            VmError::Firepilot(m) => String::from_str("firepilot error: ").concat(m.as_str()),
            VmError::Io(m) => String::from_str("I/O error: ").concat(m.as_str()),
            VmError::Timeout(d) => {
                let span: String = debug_text(d);
                String::from_str("operation timed out after ").concat(span.as_str())
            },
        }
    }
}

} // verus!
