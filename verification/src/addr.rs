//! Network addresses as plain integers.

use vstd::prelude::*;

verus! {

/// An IP address.
#[derive(Clone, Copy, Debug, PartialEq, Eq, Structural)]
pub enum IpAddr {
    /// IPv4 address, most significant byte first.
    V4(u32),
    /// IPv6 address, most significant byte first.
    V6(u128),
}

/// An IP address with a port.
#[derive(Clone, Copy, Debug, PartialEq, Eq, Structural)]
pub struct SocketAddr {
    /// Address.
    pub ip: IpAddr,
    /// Port.
    pub port: u16,
}

impl SocketAddr {
    /// Creates an IPv4 address with a port.
    pub fn v4(ip: u32, port: u16) -> (addr: SocketAddr)
        ensures
            addr == (SocketAddr { ip: IpAddr::V4(ip), port }),
    {
        SocketAddr { ip: IpAddr::V4(ip), port }
    }

    /// Creates an IPv6 address with a port.
    pub fn v6(ip: u128, port: u16) -> (addr: SocketAddr)
        ensures
            addr == (SocketAddr { ip: IpAddr::V6(ip), port }),
    {
        SocketAddr { ip: IpAddr::V6(ip), port }
    }
}

} // verus!
