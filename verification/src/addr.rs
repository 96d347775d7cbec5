//! Network addresses as plain values.
//!
//! An address is held as the number its bytes spell in network order, so that
//! two addresses are equal exactly when their numbers are.

use vstd::prelude::*;

verus! {

/// An IPv4 address.
#[derive(Clone, Copy, Debug, PartialEq, Eq, Structural, Hash)]
pub struct Ipv4Addr {
    /// The four octets, most significant first.
    pub bits: u32,
}

/// An IPv6 address.
#[derive(Clone, Copy, Debug, PartialEq, Eq, Structural, Hash)]
pub struct Ipv6Addr {
    /// The sixteen octets, most significant first.
    pub bits: u128,
}

/// An address of either family.
#[derive(Clone, Copy, Debug, PartialEq, Eq, Structural, Hash)]
pub enum IpAddr {
    V4(Ipv4Addr),
    V6(Ipv6Addr),
}

/// An address and a port.
#[derive(Clone, Copy, Debug, PartialEq, Eq, Structural, Hash)]
pub struct SocketAddr {
    pub ip: IpAddr,
    pub port: u16,
}

/// The number that the octets `a.b.c.d` spell.
pub open spec fn ipv4_bits(a: u8, b: u8, c: u8, d: u8) -> int {
    a as int * 0x100_0000 + b as int * 0x1_0000 + c as int * 0x100 + d as int
}

impl Ipv4Addr {
    /// The address `a.b.c.d`.
    pub fn new(a: u8, b: u8, c: u8, d: u8) -> (addr: Ipv4Addr)
        ensures
            addr.bits == ipv4_bits(a, b, c, d),
    {
        let high: u32 = a as u32 * 0x100_0000 + b as u32 * 0x1_0000;
        let low: u32 = c as u32 * 0x100 + d as u32;
        Ipv4Addr { bits: high + low }
    }

    /// The four octets of the address, in the order in which they are written.
    pub fn octets(&self) -> (o: [u8; 4])
        ensures
            ipv4_bits(o[0], o[1], o[2], o[3]) == self.bits,
    {
        let a: u8 = (self.bits / 0x100_0000) as u8;
        let b: u8 = ((self.bits / 0x1_0000) % 0x100) as u8;
        let c: u8 = ((self.bits / 0x100) % 0x100) as u8;
        let d: u8 = (self.bits % 0x100) as u8;
        [a, b, c, d]
    }
}

impl SocketAddr {
    /// The socket address of `port` at `ip`.
    pub fn new(ip: IpAddr, port: u16) -> (addr: SocketAddr)
        ensures
            addr == (SocketAddr { ip, port }),
    {
        SocketAddr { ip, port }
    }
}

} // verus!
