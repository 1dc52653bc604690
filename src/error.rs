use vstd::prelude::*;

verus! {

/// The failures that the signaling, relay and monitor logic can report.
#[derive(Clone, Copy, Debug, PartialEq, Eq, Structural)]
pub enum SessionError {
    /// A description could not be written as one line of text.
    EncodingError,
    /// A signaling line is not a valid encoded description.
    MalformedDescription,
    /// The engine produced no local description after path discovery.
    DescriptionUnavailable,
    /// An inbound channel message is not valid UTF-8 text.
    NonUtf8Payload,
    /// The channel rejected a send.
    SendFailure,
    /// The connection reached the failed state.
    TransportFailure,
}

} // verus!
