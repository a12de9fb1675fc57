//! Error taxonomy of the producer core.

use vstd::prelude::*;

verus! {

/// A failure reported by the connection collaborator: transport loss, or a
/// lookup, creation or send RPC that the broker answered with an error.
#[derive(Clone, Debug, PartialEq, Eq)]
pub enum ConnectionError {
    /// The underlying connection is gone.
    Disconnected,
    /// Any other collaborator failure, carried as descriptive text.
    Unexpected(String),
}

/// The description of a connection error, as a sequence of characters.
pub open spec fn connection_error_text(e: ConnectionError) -> Seq<char> {
    match e {
        ConnectionError::Disconnected => "the connection was closed"@,
        ConnectionError::Unexpected(s) => s@,
    }
}

impl ConnectionError {
    /// A human-readable description of the failure.
    pub fn description(&self) -> (s: String)
        ensures
            s@ == connection_error_text(*self),
    {
        match self {
            ConnectionError::Disconnected => "the connection was closed".to_owned(),
            ConnectionError::Unexpected(s) => s.clone(),
        }
    }
}

/// A failure surfaced to a caller of a send-style operation.
#[derive(Clone, Debug, PartialEq, Eq)]
pub enum ProducerError {
    /// The connection collaborator failed during a send.
    Connection(ConnectionError),
    /// The payload could not be turned into a wire message.
    Serialization(String),
    /// The engine's inbound queue endpoint is gone, or its task ended
    /// before resolving the request.
    EngineUnavailable,
    /// A collaborator failure without a structured mapping, carried as
    /// descriptive text.
    Custom(String),
}

impl From<ConnectionError> for ProducerError {
    fn from(e: ConnectionError) -> (r: ProducerError) {
        ProducerError::Connection(e)
    }
}

impl vstd::std_specs::convert::FromSpecImpl<ConnectionError> for ProducerError {
    open spec fn obeys_from_spec() -> bool {
        true
    }

    open spec fn from_spec(e: ConnectionError) -> ProducerError {
        ProducerError::Connection(e)
    }
}

} // verus!
