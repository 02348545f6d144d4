//! The error vocabulary of the client.

use vstd::prelude::*;

verus! {

/// The three failure kinds a client operation can surface.
///
/// `ConnectionError` is fatal to the current operation: the socket failed or
/// no connection is open.  `UnexpectedResponse` marks a protocol-level
/// contract violation (malformed status line, body length mismatch, bad
/// parameter); the connection's framing is no longer reliable.
/// `CommandFailed` carries a recognized, operation-appropriate failure status
/// and is a normal domain outcome the caller must handle.
#[derive(Debug, Clone, PartialEq, Eq)]
pub enum BeanstalkcError {
    ConnectionError(String),
    UnexpectedResponse(String),
    CommandFailed(String),
}

pub type BeanstalkcResult<T> = Result<T, BeanstalkcError>;

impl BeanstalkcError {
    /// A readable description: a fixed kind prefix followed by the detail.
    pub fn describe(&self) -> (r: String)
        ensures
            match self {
                BeanstalkcError::ConnectionError(m) => r@ == "Connection error: "@ + m@,
                BeanstalkcError::UnexpectedResponse(m) => r@ == "Unexpected response: "@ + m@,
                BeanstalkcError::CommandFailed(m) => r@ == "Command failed: "@ + m@,
            },
    {
        match self {
            BeanstalkcError::ConnectionError(m) => String::from_str("Connection error: ").concat(
                m.as_str(),
            ),
            BeanstalkcError::UnexpectedResponse(m) => String::from_str(
                "Unexpected response: ",
            ).concat(m.as_str()),
            BeanstalkcError::CommandFailed(m) => String::from_str("Command failed: ").concat(
                m.as_str(),
            ),
        }
    }
}

} // verus!
