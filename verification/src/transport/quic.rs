//! Addresses of the QUIC transport.

use vstd::prelude::*;
use crate::error::{AddressError, Error};
use crate::peer_id::PeerId;
use crate::transport::{peer_at, read_peer, reads_as, IpAddress, Protocol, SocketAddress};

verus! {

/// What a QUIC address holds: an IP address, a UDP port, the mark of QUIC
/// and, if the address goes on, the identifier of a peer. What follows these
/// is not read.
pub open spec fn quic_socket_address(address: Seq<Protocol>) -> Result<
    (SocketAddress, Option<Seq<u8>>),
    AddressError,
> {
    if address.len() >= 3 && address[0].ip() is Some && address[1] is Udp
        && address[2] is QuicV1 {
        match peer_at(address, 3) {
            Ok(peer) => Ok(
                (SocketAddress { ip: address[0].ip()->Some_0, port: address[1]->Udp_0 }, peer),
            ),
            Err(e) => Err(e),
        }
    } else {
        Err(AddressError::InvalidProtocol)
    }
}

/// The address at which a QUIC transport that is bound to `socket_address`
/// listens.
pub open spec fn quic_listen_address(socket_address: SocketAddress) -> Seq<Protocol> {
    seq![
        match socket_address.ip {
            IpAddress::V4(octets) => Protocol::Ip4(octets),
            IpAddress::V6(octets) => Protocol::Ip6(octets),
        },
        Protocol::Udp(socket_address.port),
        Protocol::QuicV1,
    ]
}

/// Extract socket address and `PeerId`, if found, from `address`.
pub fn get_socket_address(address: &[Protocol]) -> (r: Result<
    (SocketAddress, Option<PeerId>),
    Error,
>)
    ensures
        reads_as(r, quic_socket_address(address@)),
{
    if address.len() < 2 {
        return Err(Error::AddressError(AddressError::InvalidProtocol));
    }
    let socket_address = match &address[0] {
        Protocol::Ip6(octets) => match &address[1] {
            Protocol::Udp(port) => SocketAddress { ip: IpAddress::V6(*octets), port: *port },
            _ => {
                return Err(Error::AddressError(AddressError::InvalidProtocol));
            },
        },
        Protocol::Ip4(octets) => match &address[1] {
            Protocol::Udp(port) => SocketAddress { ip: IpAddress::V4(*octets), port: *port },
            _ => {
                return Err(Error::AddressError(AddressError::InvalidProtocol));
            },
        },
        _ => {
            return Err(Error::AddressError(AddressError::InvalidProtocol));
        },
    };
    // verify that quic exists
    if address.len() < 3 {
        return Err(Error::AddressError(AddressError::InvalidProtocol));
    }
    match &address[2] {
        Protocol::QuicV1 => {},
        _ => {
            return Err(Error::AddressError(AddressError::InvalidProtocol));
        },
    }
    match read_peer(address, 3) {
        Ok(maybe_peer) => Ok((socket_address, maybe_peer)),
        Err(e) => Err(Error::AddressError(e)),
    }
}

/// Whom to dial at `address`: the socket address and the peer that the
/// address names. An address that does not read as a QUIC address with a
/// peer at its end cannot be dialed, for want of the peer.
pub fn dial_target(address: &[Protocol]) -> (r: Result<(SocketAddress, PeerId), Error>)
    ensures
        match quic_socket_address(address@) {
            Ok((socket_address, Some(peer))) => r matches Ok((a, p)) && a == socket_address
                && p@ == peer,
            _ => r matches Err(Error::AddressError(e)) && e == AddressError::PeerIdMissing,
        },
{
    match get_socket_address(address) {
        Ok((socket_address, Some(peer))) => Ok((socket_address, peer)),
        _ => Err(Error::AddressError(AddressError::PeerIdMissing)),
    }
}

/// The address that the client side binds to: any address of the family
/// that the transport listens on, and any port.
pub fn client_listen_address(listen_address: SocketAddress) -> (r: SocketAddress)
    ensures
        r.port == 0,
        match listen_address.ip {
            IpAddress::V4(_) => r.ip matches IpAddress::V4(octets) && octets@ == Seq::new(
                4,
                |i: int| 0u8,
            ),
            IpAddress::V6(_) => r.ip matches IpAddress::V6(octets) && octets@ == Seq::new(
                16,
                |i: int| 0u8,
            ),
        },
{
    match listen_address.ip {
        IpAddress::V4(_) => {
            let octets: [u8; 4] = [0u8; 4];
            assert(octets@ =~= Seq::new(4, |i: int| 0u8));
            SocketAddress { ip: IpAddress::V4(octets), port: 0 }
        },
        IpAddress::V6(_) => {
            let octets: [u8; 16] = [0u8; 16];
            assert(octets@ =~= Seq::new(16, |i: int| 0u8));
            SocketAddress { ip: IpAddress::V6(octets), port: 0 }
        },
    }
}

/// Get assigned listen address.
pub fn listen_address(socket_address: SocketAddress) -> (r: Vec<Protocol>)
    ensures
        r@ == quic_listen_address(socket_address),
{
    let mut multiaddr: Vec<Protocol> = Vec::new();
    match socket_address.ip {
        IpAddress::V4(octets) => multiaddr.push(Protocol::Ip4(octets)),
        IpAddress::V6(octets) => multiaddr.push(Protocol::Ip6(octets)),
    }
    multiaddr.push(Protocol::Udp(socket_address.port));
    multiaddr.push(Protocol::QuicV1);
    assert(multiaddr@ =~= quic_listen_address(socket_address));
    multiaddr
}

/// The address at which a QUIC transport listens reads back as the socket
/// address that the transport is bound to, and names no peer.
pub proof fn lemma_listen_address_reads_back(socket_address: SocketAddress)
    ensures
        quic_socket_address(quic_listen_address(socket_address)) == Ok::<
            (SocketAddress, Option<Seq<u8>>),
            AddressError,
        >((socket_address, None)),
{
}

} // verus!
