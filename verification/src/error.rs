//! Error types of the stack.

use vstd::prelude::*;
use tokio::sync::mpsc::error::SendError;
use crate::peer_id::PeerId;
use crate::transport::Protocol;
use crate::types::ProtocolName;

verus! {

/// Why an address could not be used.
#[derive(Debug, Clone, Copy, PartialEq, Eq, Structural)]
pub enum AddressError {
    /// The address names a protocol that the transport does not speak, or
    /// names the protocols in an order that it does not accept.
    InvalidProtocol,
    /// The address has to end in a peer identifier and does not.
    PeerIdMissing,
    /// The address names a peer by a multihash that is no peer's.
    InvalidPeerId,
}

/// Why a byte string is not a peer identifier.
#[derive(Debug, Clone, Copy, PartialEq, Eq, Structural)]
pub enum ParseError {
    /// The bytes are not a multihash that identifies a peer.
    InvalidMultihash,
}

/// Why bytes could not be read as a public key.
#[derive(Debug, Clone, Copy, PartialEq, Eq, Structural)]
pub enum DecodingError {
    /// The bytes are no message of the key format.
    BadProtobuf,
    /// The key type is none that the key format defines.
    UnknownKeyType(i32),
    /// The key data does not have the length of a key.
    InvalidLength,
    /// The key data is not a point of the curve.
    InvalidKey,
}

/// Errors of the notification protocol.
#[derive(Debug, Clone, Copy, PartialEq, Eq, Structural)]
pub enum NotificationError {
    /// The substream could not be opened or the handshake failed.
    Rejected,
    /// The substream ended while it was being opened.
    Cancelled,
    /// There is no connection to ask for a substream on.
    NoConnection,
    /// The channel of synchronous notifications is full.
    ChannelClogged,
}

/// Errors of the stack.
#[derive(Debug)]
pub enum Error {
    /// The peer has no open substream.
    PeerDoesntExist(PeerId),
    /// The peer already has an open substream.
    PeerAlreadyExists(PeerId),
    /// No handler is registered under the protocol name.
    ProtocolNotSupported(String),
    /// A handler is already registered under the protocol name.
    ProtocolAlreadyExists(ProtocolName),
    /// The address cannot be used by the transport.
    AddressError(AddressError),
    /// No transport can dial the address, which is given back.
    TransportNotSupported(Vec<Protocol>),
    /// The task at the other end of a channel has exited.
    EssentialTaskClosed,
}

impl<T> From<SendError<T>> for Error {
    fn from(error: SendError<T>) -> (r: Error) {
        Error::EssentialTaskClosed
    }
}

impl<T> vstd::std_specs::convert::FromSpecImpl<SendError<T>> for Error {
    open spec fn obeys_from_spec() -> bool {
        true
    }

    open spec fn from_spec(error: SendError<T>) -> Error {
        Error::EssentialTaskClosed
    }
}

} // verus!
