//! Peer addresses and packets: the unit of exchange of the socket.

use vstd::prelude::*;

verus! {

/// The IP part of a peer address, held as the integer that its octets spell
/// in network order.
#[derive(Clone, Copy, Debug, PartialEq, Eq, Hash, Structural)]
pub enum IpAddress {
    V4(u32),
    V6(u128),
}

/// A transport-level endpoint: an IP address and a port.
///
/// Port `0` stands for "no port chosen yet": a listener bound to it asks for
/// a port to be assigned.
#[derive(Clone, Copy, Debug, PartialEq, Eq, Hash, Structural)]
pub struct PeerAddress {
    pub ip: IpAddress,
    pub port: u16,
}

impl PeerAddress {
    pub fn new(ip: IpAddress, port: u16) -> (address: PeerAddress)
        ensures
            address.ip == ip,
            address.port == port,
    {
        PeerAddress { ip, port }
    }

    /// The IPv4 address `a.b.c.d` with the given port.
    pub fn v4(a: u8, b: u8, c: u8, d: u8, port: u16) -> (address: PeerAddress)
        ensures
            address.ip == IpAddress::V4(ipv4_bits(a, b, c, d)),
            address.port == port,
    {
        let bits: u32 = ((a as u32) << 24) | ((b as u32) << 16) | ((c as u32) << 8) | (d as u32);
        PeerAddress { ip: IpAddress::V4(bits), port }
    }

    pub fn ip(&self) -> (ip: IpAddress)
        ensures
            ip == self.ip,
    {
        self.ip
    }

    pub fn port(&self) -> (port: u16)
        ensures
            port == self.port,
    {
        self.port
    }

    /// The same host on another port.
    pub fn with_port(&self, port: u16) -> (address: PeerAddress)
        ensures
            address.ip == self.ip,
            address.port == port,
    {
        PeerAddress { ip: self.ip, port }
    }
}

/// The 32 bits of the IPv4 address `a.b.c.d`, most significant octet first.
pub open spec fn ipv4_bits(a: u8, b: u8, c: u8, d: u8) -> u32 {
    ((a as u32) << 24) | ((b as u32) << 16) | ((c as u32) << 8) | (d as u32)
}

/// What a packet is, as a mathematical value.
pub struct PacketView {
    pub address: PeerAddress,
    pub payload: Seq<u8>,
}

/// A remote peer's address and an opaque payload. Immutable once made.
#[derive(Clone, Debug, PartialEq, Eq)]
pub struct Packet {
    address: PeerAddress,
    payload: Vec<u8>,
}

impl View for Packet {
    type V = PacketView;

    closed spec fn view(&self) -> PacketView {
        PacketView { address: self.address, payload: self.payload@ }
    }
}

impl Packet {
    pub fn new(address: PeerAddress, payload: Vec<u8>) -> (packet: Packet)
        ensures
            packet@.address == address,
            packet@.payload == payload@,
    {
        Packet { address, payload }
    }

    /// The peer that the packet came from, or is meant for.
    pub fn address(&self) -> (address: PeerAddress)
        ensures
            address == self@.address,
    {
        self.address
    }

    pub fn payload(&self) -> (payload: &[u8])
        ensures
            payload@ == self@.payload,
    {
        self.payload.as_slice()
    }
}

} // verus!
