//! Internet addresses as plain values.

use vstd::prelude::*;

verus! {

/// An IPv4 address: four octets, most significant first.
#[derive(Clone, Copy, Debug, PartialEq, Eq)]
pub struct Ipv4Addr {
    pub octets: [u8; 4],
}

/// An IPv6 address: eight segments of sixteen bits, most significant first.
#[derive(Clone, Copy, Debug, PartialEq, Eq)]
pub struct Ipv6Addr {
    pub segments: [u16; 8],
}

/// The address of an IPv4 socket.
#[derive(Clone, Copy, Debug, PartialEq, Eq)]
pub struct SocketAddrV4 {
    pub ip: Ipv4Addr,
    pub port: u16,
}

/// The address of an IPv6 socket.
#[derive(Clone, Copy, Debug, PartialEq, Eq)]
pub struct SocketAddrV6 {
    pub ip: Ipv6Addr,
    pub port: u16,
    pub flowinfo: u32,
    pub scope_id: u32,
}

/// The address of a socket: an internet address and a port number.
#[derive(Clone, Copy, Debug, PartialEq, Eq)]
pub enum SocketAddr {
    V4(SocketAddrV4),
    V6(SocketAddrV6),
}

impl Ipv4Addr {
    /// The address `a.b.c.d`.
    pub fn new(a: u8, b: u8, c: u8, d: u8) -> (ip: Ipv4Addr)
        ensures
            ip.octets@ == seq![a, b, c, d],
    {
        let ip = Ipv4Addr { octets: [a, b, c, d] };
        assert(ip.octets@ =~= seq![a, b, c, d]);
        ip
    }

    /// The four octets, most significant first.
    pub fn octets(&self) -> (o: [u8; 4])
        ensures
            o == self.octets,
    {
        self.octets
    }
}

impl Ipv6Addr {
    /// The address whose segments are `a` to `h`, in that order.
    pub fn new(a: u16, b: u16, c: u16, d: u16, e: u16, f: u16, g: u16, h: u16) -> (ip: Ipv6Addr)
        ensures
            ip.segments@ == seq![a, b, c, d, e, f, g, h],
    {
        let ip = Ipv6Addr { segments: [a, b, c, d, e, f, g, h] };
        assert(ip.segments@ =~= seq![a, b, c, d, e, f, g, h]);
        ip
    }

    /// The eight segments, most significant first.
    pub fn segments(&self) -> (s: [u16; 8])
        ensures
            s == self.segments,
    {
        self.segments
    }
}

impl SocketAddr {
    /// An IPv4 socket address.
    pub fn v4(ip: Ipv4Addr, port: u16) -> (addr: SocketAddr)
        ensures
            addr == SocketAddr::V4(SocketAddrV4 { ip, port }),
    {
        SocketAddr::V4(SocketAddrV4 { ip, port })
    }

    /// An IPv6 socket address with no flow information and no scope.
    pub fn v6(ip: Ipv6Addr, port: u16) -> (addr: SocketAddr)
        ensures
            addr == SocketAddr::V6(SocketAddrV6 { ip, port, flowinfo: 0, scope_id: 0 }),
    {
        SocketAddr::V6(SocketAddrV6 { ip, port, flowinfo: 0, scope_id: 0 })
    }

    /// The port number.
    pub open spec fn port_spec(&self) -> u16 {
        match *self {
            SocketAddr::V4(a) => a.port,
            SocketAddr::V6(a) => a.port,
        }
    }

    /// The port number.
    #[verifier::when_used_as_spec(port_spec)]
    pub fn port(&self) -> (p: u16)
        ensures
            p == self.port_spec(),
    {
        match *self {
            SocketAddr::V4(a) => a.port,
            SocketAddr::V6(a) => a.port,
        }
    }

    /// Whether this is an IPv4 address.
    pub fn is_ipv4(&self) -> (b: bool)
        ensures
            b == (*self is V4),
    {
        match *self {
            SocketAddr::V4(_) => true,
            SocketAddr::V6(_) => false,
        }
    }
}

} // verus!
