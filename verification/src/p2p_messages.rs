//! Wire-level response shapes and errors of the peer-to-peer
//! request/response protocol.

use vstd::prelude::*;

verus! {

/// A response as it is sent over the wire: the requested item already
/// serialized, or `None` when the peer does not have it.
#[derive(Clone, Debug)]
pub enum NetworkResponse {
    /// A serialized sealed block, if held.
    Block(Option<Vec<u8>>),
    /// A serialized sealed header, if held.
    Header(Option<Vec<u8>>),
    /// Serialized transactions, if held.
    Transactions(Option<Vec<u8>>),
}

/// Failure to send a request to a peer.
#[derive(Copy, Clone, Debug, PartialEq, Eq, Structural)]
pub enum RequestError {
    /// No peer is connected to take the request.
    NoPeersConnected,
}

/// Failure to hand a received response on.
#[derive(Copy, Clone, Debug, PartialEq, Eq, Structural)]
pub enum ResponseError {
    /// No channel is registered for the response.
    ResponseChannelDoesNotExist,
    /// The response could not be sent into its channel.
    SendingResponseFailed,
    /// The response could not be converted to its intermediate form.
    ConversionToIntermediateFailed,
}

} // verus!
