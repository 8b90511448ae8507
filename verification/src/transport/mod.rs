//! Addresses of peers and what the transports read from them.

use vstd::prelude::*;
use crate::error::{AddressError, Error};
use crate::peer_id::{is_peer_multihash, PeerId};

pub mod quic;
pub mod tcp;

verus! {

/// An IP address, by its bytes in network order.
#[derive(Debug, Clone, Copy, PartialEq, Eq)]
pub enum IpAddress {
    /// An IPv4 address.
    V4([u8; 4]),
    /// An IPv6 address.
    V6([u8; 16]),
}

/// An IP address and a port.
#[derive(Debug, Clone, Copy, PartialEq, Eq)]
pub struct SocketAddress {
    /// The IP address.
    pub ip: IpAddress,
    /// The port.
    pub port: u16,
}

/// One component of a multiaddress.
#[derive(Debug)]
pub enum Protocol {
    /// An IPv4 address.
    Ip4([u8; 4]),
    /// An IPv6 address.
    Ip6([u8; 16]),
    /// A TCP port.
    Tcp(u16),
    /// A UDP port.
    Udp(u16),
    /// QUIC, version 1.
    QuicV1,
    /// The identifier of a peer, as the bytes of its multihash.
    P2p(Vec<u8>),
    /// A component that no transport here reads.
    Other,
}

impl Protocol {
    /// The IP address that the component holds, if it holds one.
    pub open spec fn ip(&self) -> Option<IpAddress> {
        match self {
            Protocol::Ip4(octets) => Some(IpAddress::V4(*octets)),
            Protocol::Ip6(octets) => Some(IpAddress::V6(*octets)),
            _ => None,
        }
    }
}

/// The peer that an address names at position `at`: none if the address
/// ends before it, the peer of the multihash that stands there, and an error
/// if the multihash is no peer's or something else stands there.
pub open spec fn peer_at(address: Seq<Protocol>, at: int) -> Result<Option<Seq<u8>>, AddressError> {
    if address.len() <= at {
        Ok(None)
    } else {
        match address[at] {
            Protocol::P2p(multihash) => if is_peer_multihash(multihash@) {
                Ok(Some(multihash@))
            } else {
                Err(AddressError::InvalidPeerId)
            },
            _ => Err(AddressError::InvalidProtocol),
        }
    }
}

/// Whether `r` is what reading an address gives, where `expected` is what
/// the address holds.
pub open spec fn reads_as(
    r: Result<(SocketAddress, Option<PeerId>), Error>,
    expected: Result<(SocketAddress, Option<Seq<u8>>), AddressError>,
) -> bool {
    match expected {
        Ok((socket_address, peer)) => {
            &&& r matches Ok((a, p))
            &&& a == socket_address
            &&& match peer {
                Some(bytes) => p matches Some(id) && id@ == bytes,
                None => p is None,
            }
        },
        Err(e) => r matches Err(Error::AddressError(x)) && x == e,
    }
}

/// Reads the peer that an address names at position `at`.
pub fn read_peer(address: &[Protocol], at: usize) -> (r: Result<Option<PeerId>, AddressError>)
    ensures
        match peer_at(address@, at as int) {
            Ok(Some(bytes)) => r matches Ok(Some(id)) && id@ == bytes,
            Ok(None) => r matches Ok(None),
            Err(e) => r == Err::<Option<PeerId>, AddressError>(e),
        },
{
    if address.len() <= at {
        return Ok(None);
    }
    match &address[at] {
        Protocol::P2p(multihash) => match PeerId::from_bytes(multihash.as_slice()) {
            Ok(peer) => Ok(Some(peer)),
            Err(_) => Err(AddressError::InvalidPeerId),
        },
        _ => Err(AddressError::InvalidProtocol),
    }
}

/// Whether an address can be dialed: it starts with an IP address and a TCP
/// port.
pub open spec fn is_dialable(address: Seq<Protocol>) -> bool {
    address.len() >= 2 && address[0].ip() is Some && address[1] is Tcp
}

/// Checks that an address names a transport that can dial it, and gives the
/// address back: as it is if it can be dialed, and in the error if it starts
/// with anything but an IP address and a TCP port.
pub fn check_transport(address: Vec<Protocol>) -> (r: Result<Vec<Protocol>, Error>)
    ensures
        is_dialable(address@) ==> r == Ok::<Vec<Protocol>, Error>(address),
        !is_dialable(address@) ==> r == Err::<Vec<Protocol>, Error>(
            Error::TransportNotSupported(address),
        ),
{
    if address.len() < 2 {
        return Err(Error::TransportNotSupported(address));
    }
    let ip: bool = match &address[0] {
        Protocol::Ip4(_) => true,
        Protocol::Ip6(_) => true,
        _ => false,
    };
    let tcp: bool = match &address[1] {
        Protocol::Tcp(_) => true,
        _ => false,
    };
    if ip && tcp {
        Ok(address)
    } else {
        Err(Error::TransportNotSupported(address))
    }
}

} // verus!
