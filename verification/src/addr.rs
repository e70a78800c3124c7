use vstd::prelude::*;

verus! {

/// A socket address: an IP address and a port. The IPv6 form also carries
/// the flow information and the scope identifier of the address.
#[derive(Clone, Copy, Debug)]
pub enum SocketAddress {
    V4 { ip: [u8; 4], port: u16 },
    V6 { ip: [u16; 8], port: u16, flowinfo: u32, scope_id: u32 },
}

impl SocketAddress {
    /// The port of the address.
    pub open spec fn spec_port(self) -> u16 {
        match self {
            SocketAddress::V4 { port, .. } => port,
            SocketAddress::V6 { port, .. } => port,
        }
    }

    /// The port of the address.
    pub fn port(&self) -> (p: u16)
        ensures
            p == self.spec_port(),
            self matches SocketAddress::V4 { port, .. } ==> p == port,
            self matches SocketAddress::V6 { port, .. } ==> p == port,
    {
        match self {
            SocketAddress::V4 { port, .. } => *port,
            SocketAddress::V6 { port, .. } => *port,
        }
    }
}

/// The port of an address is the port it was made with, whatever its IP
/// address, flow information or scope.
pub proof fn lemma_port_is_given_port(
    ip4: [u8; 4],
    ip6: [u16; 8],
    port: u16,
    flowinfo: u32,
    scope_id: u32,
)
    ensures
        (SocketAddress::V4 { ip: ip4, port }).spec_port() == port,
        (SocketAddress::V6 { ip: ip6, port, flowinfo, scope_id }).spec_port() == port,
{
}

/// Two addresses that differ only in their IP address have the same port.
pub proof fn lemma_port_independent_of_ip(a: [u8; 4], b: [u8; 4], port: u16)
    ensures
        (SocketAddress::V4 { ip: a, port }).spec_port() == (SocketAddress::V4 {
            ip: b,
            port,
        }).spec_port(),
{
}

} // verus!
