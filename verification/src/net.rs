//! Plain-value network addresses, mirroring `IpAddr` and `SocketAddr` field for field.
use vstd::prelude::*;

verus! {

/// An IP address: four octets, or eight 16-bit segments.
#[derive(Clone, Copy, Debug)]
pub enum IpAddress {
    V4([u8; 4]),
    V6([u16; 8]),
}

/// A socket address: an IP address and a port (with the IPv6 flow and scope fields).
#[allow(inconsistent_fields)]
#[derive(Clone, Copy, Debug)]
pub enum SocketAddress {
    V4 { ip: [u8; 4], port: u16 },
    V6 { ip: [u16; 8], port: u16, flowinfo: u32, scope_id: u32 },
}

/// The IPv4 loopback address 127.0.0.1.
pub open spec fn loopback() -> IpAddress {
    IpAddress::V4([127u8, 0u8, 0u8, 1u8])
}

/// The address a route gets when none is given: 127.0.0.1.
pub fn default_ip() -> (r: IpAddress)
    ensures
        r == loopback(),
{
    IpAddress::V4([127u8, 0u8, 0u8, 1u8])
}

/// The IPv4 socket address `a.b.c.d:port`.
pub open spec fn v4_socket(a: u8, b: u8, c: u8, d: u8, port: u16) -> SocketAddress {
    SocketAddress::V4 { ip: [a, b, c, d], port }
}

} // verus!
