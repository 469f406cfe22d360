//! The ways in which an operation of the service can fail.

use vstd::prelude::*;

verus! {

/// Why an operation failed. Nothing is retried: every failure is handed to
/// whoever asked for the operation.
#[derive(Clone, Copy, Debug, PartialEq, Eq, Structural)]
pub enum HalError {
    /// The operation is not valid in the controller's current state.
    IllegalState,
    /// A read from, or a write to, the transport failed.
    TransportIo,
    /// The client's callback could not be reached.
    RemoteGone,
    /// The operation is not offered at all.
    Unimplemented,
    /// What was handed over as a packet header is not four octets long.
    MalformedHeader,
}

} // verus!
