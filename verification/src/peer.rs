//! The address of a peer as plain numbers.

use vstd::prelude::*;

verus! {

/// An IP address: the four bytes of an IPv4 address or the sixteen of an
/// IPv6 address, as one big-endian number.
#[derive(Clone, Copy, Debug, PartialEq, Eq, Hash, Structural)]
pub enum PeerIp {
    V4(u32),
    V6(u128),
}

/// The address a datagram came from or goes to. It holds what a socket
/// address holds, field by field; flow information and scope belong to
/// IPv6 and are zero for IPv4.
#[derive(Clone, Copy, Debug, PartialEq, Eq, Hash, Structural)]
pub struct PeerAddr {
    pub ip: PeerIp,
    pub port: u16,
    pub flowinfo: u32,
    pub scope_id: u32,
}

impl PeerAddr {
    /// An IPv4 address and a port.
    pub fn v4(ip: u32, port: u16) -> (addr: PeerAddr)
        ensures
            addr == (PeerAddr { ip: PeerIp::V4(ip), port, flowinfo: 0, scope_id: 0 }),
    {
        PeerAddr { ip: PeerIp::V4(ip), port, flowinfo: 0, scope_id: 0 }
    }

    /// An IPv6 address, a port, flow information and a scope.
    pub fn v6(ip: u128, port: u16, flowinfo: u32, scope_id: u32) -> (addr: PeerAddr)
        ensures
            addr == (PeerAddr { ip: PeerIp::V6(ip), port, flowinfo, scope_id }),
    {
        PeerAddr { ip: PeerIp::V6(ip), port, flowinfo, scope_id }
    }

    pub fn ip(&self) -> (ip: PeerIp)
        ensures
            ip == self.ip,
    {
        self.ip
    }

    pub fn port(&self) -> (port: u16)
        ensures
            port == self.port,
    {
        self.port
    }
}

} // verus!
