use vstd::prelude::*;

verus! {

/// An IP address held as its numeric value: 32 bits for IPv4, 128 bits for IPv6.
#[derive(Clone, Copy, Debug, PartialEq, Eq, Structural)]
pub enum IpAddress {
    V4(u32),
    V6(u128),
}

/// The network address of one backend: an IP address and a port.
#[derive(Clone, Copy, Debug, PartialEq, Eq, Structural)]
pub struct SocketAddress {
    pub ip: IpAddress,
    pub port: u16,
}

/// The loopback address 127.0.0.1 with the given port, where every worker listens.
pub fn loopback(port: u16) -> (r: SocketAddress)
    ensures
        r.ip == IpAddress::V4(0x7f00_0001),
        r.port == port,
{
    SocketAddress { ip: IpAddress::V4(0x7f00_0001), port }
}

} // verus!
