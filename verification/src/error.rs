//! Error taxonomy of the client library.

use vstd::prelude::*;

verus! {

/// Failure of one client operation.
///
/// `Config` reports that the underlying HTTP machinery could not be built
/// from the given TLS policy; `Transport` reports a network-level failure
/// while sending (constructed by the surrounding application, never by the
/// library itself); `Decode` reports a response body that is not valid JSON
/// or does not have the expected shape.
#[derive(Debug, Clone, PartialEq)]
pub enum BrigadeError {
    Config(String),
    Transport(String),
    Decode(String),
}

impl BrigadeError {
    /// A human-readable description of the failure.
    pub fn message(&self) -> (r: String)
        ensures
            r@ == (match self {
                BrigadeError::Config(m) => m@,
                BrigadeError::Transport(m) => m@,
                BrigadeError::Decode(m) => m@,
            }),
    {
        match self {
            BrigadeError::Config(m) => m.clone(),
            BrigadeError::Transport(m) => m.clone(),
            BrigadeError::Decode(m) => m.clone(),
        }
    }
}

} // verus!
