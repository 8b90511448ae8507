//! Addresses of the TCP transport.

use vstd::prelude::*;
use crate::error::{AddressError, Error};
use crate::peer_id::PeerId;
use crate::transport::{peer_at, read_peer, reads_as, IpAddress, Protocol, SocketAddress};

verus! {

/// What a TCP address holds: an IP address, a TCP port and, if the address
/// goes on, the identifier of a peer. What follows these is not read.
pub open spec fn tcp_socket_address(address: Seq<Protocol>) -> Result<
    (SocketAddress, Option<Seq<u8>>),
    AddressError,
> {
    if address.len() >= 2 && address[0].ip() is Some && address[1] is Tcp {
        match peer_at(address, 2) {
            Ok(peer) => Ok(
                (SocketAddress { ip: address[0].ip()->Some_0, port: address[1]->Tcp_0 }, peer),
            ),
            Err(e) => Err(e),
        }
    } else {
        Err(AddressError::InvalidProtocol)
    }
}

/// Extract socket address and `PeerId`, if found, from `address`.
pub fn get_socket_address(address: &[Protocol]) -> (r: Result<
    (SocketAddress, Option<PeerId>),
    Error,
>)
    ensures
        reads_as(r, tcp_socket_address(address@)),
{
    if address.len() < 2 {
        return Err(Error::AddressError(AddressError::InvalidProtocol));
    }
    let socket_address = match &address[0] {
        Protocol::Ip6(octets) => match &address[1] {
            Protocol::Tcp(port) => SocketAddress { ip: IpAddress::V6(*octets), port: *port },
            _ => {
                return Err(Error::AddressError(AddressError::InvalidProtocol));
            },
        },
        Protocol::Ip4(octets) => match &address[1] {
            Protocol::Tcp(port) => SocketAddress { ip: IpAddress::V4(*octets), port: *port },
            _ => {
                return Err(Error::AddressError(AddressError::InvalidProtocol));
            },
        },
        _ => {
            return Err(Error::AddressError(AddressError::InvalidProtocol));
        },
    };
    match read_peer(address, 2) {
        Ok(maybe_peer) => Ok((socket_address, maybe_peer)),
        Err(e) => Err(Error::AddressError(e)),
    }
}

} // verus!
