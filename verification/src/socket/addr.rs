use vstd::prelude::*;

verus! {

/// An IPv4 address `a.b.c.d`, held as its four octets in the order they are
/// written.
#[derive(Debug, Clone, Copy, PartialEq, Eq, Structural)]
pub struct Ipv4Addr {
    pub a: u8,
    pub b: u8,
    pub c: u8,
    pub d: u8,
}

impl Ipv4Addr {
    /// The address `a.b.c.d`.
    pub fn new(a: u8, b: u8, c: u8, d: u8) -> (ip: Ipv4Addr)
        ensures
            ip == (Ipv4Addr { a, b, c, d }),
    {
        Ipv4Addr { a, b, c, d }
    }
}

/// The port and address fields of an IPv4 socket address (`sockaddr_in`),
/// held as the bytes that lie in memory, in network byte order (most
/// significant byte first). The address bytes in that order are the octets
/// in the order they are written, so they are held as an address.
#[derive(Debug, Clone, Copy, PartialEq, Eq, Structural)]
pub struct SockAddrIn {
    pub port_hi: u8,
    pub port_lo: u8,
    pub addr: Ipv4Addr,
}

impl SockAddrIn {
    /// The socket address of `ip` and `port`, in network byte order.
    pub open spec fn spec_new(ip: Ipv4Addr, port: u16) -> SockAddrIn {
        SockAddrIn { port_hi: (port / 256) as u8, port_lo: (port % 256) as u8, addr: ip }
    }

    /// The socket address of `ip` and `port`, laid out in network byte order.
    pub fn new(ip: Ipv4Addr, port: u16) -> (sa: SockAddrIn)
        ensures
            sa == Self::spec_new(ip, port),
    {
        SockAddrIn { port_hi: (port / 256) as u8, port_lo: (port % 256) as u8, addr: ip }
    }

    pub open spec fn spec_port(self) -> u16 {
        (self.port_hi * 256 + self.port_lo) as u16
    }

    /// The address that the socket address holds.
    pub fn ip(&self) -> (ip: Ipv4Addr)
        ensures
            ip == self.addr,
    {
        self.addr
    }

    /// The port that the socket address holds, in host terms.
    pub fn port(&self) -> (p: u16)
        ensures
            p == self.spec_port(),
    {
        let hi = self.port_hi as u16;
        let lo = self.port_lo as u16;
        hi * 256 + lo
    }
}

/// Reading back a socket address gives the address and port it was made
/// from, and a socket address is the one made from what is read back from it.
pub proof fn lemma_sockaddr_round_trip(ip: Ipv4Addr, port: u16, sa: SockAddrIn)
    ensures
        SockAddrIn::spec_new(ip, port).addr == ip,
        SockAddrIn::spec_new(ip, port).spec_port() == port,
        SockAddrIn::spec_new(sa.addr, sa.spec_port()) == sa,
{
}

/// A socket address holds its port in network byte order: the first byte is
/// the port's high byte and the second its low byte, both when the address is
/// laid out from a port and when a port is read back from an address; the
/// address bytes are the octets in the order they are written.
pub proof fn lemma_port_network_order(ip: Ipv4Addr, port: u16, sa: SockAddrIn)
    ensures
        SockAddrIn::spec_new(ip, port).port_hi as int * 256 + SockAddrIn::spec_new(ip, port).port_lo as int
            == port as int,
        SockAddrIn::spec_new(ip, port).port_hi as int == port as int / 256,
        SockAddrIn::spec_new(ip, port).port_lo as int == port as int % 256,
        SockAddrIn::spec_new(ip, port).addr == ip,
        sa.spec_port() as int == sa.port_hi as int * 256 + sa.port_lo as int,
{
}

} // verus!
