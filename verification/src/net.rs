//! Internet addresses.

use vstd::prelude::*;

verus! {

/// An IPv4 address.
#[derive(Debug, Clone, Copy, PartialEq, Eq, Structural)]
pub struct Ipv4Addr {
    /// The address as a number.
    pub bits: u32,
}

/// An IPv6 address.
#[derive(Debug, Clone, Copy, PartialEq, Eq, Structural)]
pub struct Ipv6Addr {
    /// The address as a number.
    pub bits: u128,
}

/// An IP address, either IPv4 or IPv6.
#[derive(Debug, Clone, Copy, PartialEq, Eq, Structural)]
pub enum IpAddr {
    /// An IPv4 address.
    V4(Ipv4Addr),
    /// An IPv6 address.
    V6(Ipv6Addr),
}

/// An IPv4 address with a port.
#[derive(Debug, Clone, Copy, PartialEq, Eq, Structural)]
pub struct SocketAddrV4 {
    /// The address.
    pub ip: Ipv4Addr,
    /// The port.
    pub port: u16,
}

/// An IPv6 address with a port.
#[derive(Debug, Clone, Copy, PartialEq, Eq, Structural)]
pub struct SocketAddrV6 {
    /// The address.
    pub ip: Ipv6Addr,
    /// The port.
    pub port: u16,
    /// The flow label.
    pub flowinfo: u32,
    /// The scope.
    pub scope_id: u32,
}

/// An IP address with a port.
#[derive(Debug, Clone, Copy, PartialEq, Eq, Structural)]
pub enum SocketAddr {
    /// An IPv4 address with a port.
    V4(SocketAddrV4),
    /// An IPv6 address with a port.
    V6(SocketAddrV6),
}

impl SocketAddr {
    /// The IP address.
    pub open spec fn address(self) -> IpAddr {
        match self {
            SocketAddr::V4(addr) => IpAddr::V4(addr.ip),
            SocketAddr::V6(addr) => IpAddr::V6(addr.ip),
        }
    }

    /// The same address with another port.
    pub open spec fn at_port(self, port: u16) -> SocketAddr {
        match self {
            SocketAddr::V4(addr) => SocketAddr::V4(SocketAddrV4 { port, ..addr }),
            SocketAddr::V6(addr) => SocketAddr::V6(SocketAddrV6 { port, ..addr }),
        }
    }

    /// An address with a port, without a flow label or a scope.
    pub open spec fn of(ip: IpAddr, port: u16) -> SocketAddr {
        match ip {
            IpAddr::V4(ip) => SocketAddr::V4(SocketAddrV4 { ip, port }),
            IpAddr::V6(ip) => SocketAddr::V6(SocketAddrV6 { ip, port, flowinfo: 0, scope_id: 0 }),
        }
    }

    /// An address with a port, without a flow label or a scope.
    pub fn new(ip: IpAddr, port: u16) -> (addr: Self)
        ensures
            addr == SocketAddr::of(ip, port),
    {
        match ip {
            IpAddr::V4(ip) => SocketAddr::V4(SocketAddrV4 { ip, port }),
            IpAddr::V6(ip) => SocketAddr::V6(SocketAddrV6 { ip, port, flowinfo: 0, scope_id: 0 }),
        }
    }

    /// The IP address.
    pub fn ip(&self) -> (ip: IpAddr)
        ensures
            ip == self.address(),
    {
        match self {
            SocketAddr::V4(addr) => IpAddr::V4(addr.ip),
            SocketAddr::V6(addr) => IpAddr::V6(addr.ip),
        }
    }

    /// The port.
    pub fn port(&self) -> (port: u16)
        ensures
            port == match self {
                SocketAddr::V4(addr) => addr.port,
                SocketAddr::V6(addr) => addr.port,
            },
    {
        match self {
            SocketAddr::V4(addr) => addr.port,
            SocketAddr::V6(addr) => addr.port,
        }
    }

    /// Changes the port.
    pub fn with_port(&self, port: u16) -> (addr: Self)
        ensures
            addr == self.at_port(port),
    {
        match self {
            SocketAddr::V4(addr) => SocketAddr::V4(SocketAddrV4 { ip: addr.ip, port }),
            SocketAddr::V6(addr) => SocketAddr::V6(
                SocketAddrV6 {
                    ip: addr.ip,
                    port,
                    flowinfo: addr.flowinfo,
                    scope_id: addr.scope_id,
                },
            ),
        }
    }
}

/// An address has the IP address and the port that it was made with.
pub proof fn law_address_has_its_parts(
    ip: IpAddr,
    port: u16,
    addr: SocketAddr,
    found_ip: IpAddr,
    found_port: u16,
)
    requires
        call_ensures(SocketAddr::new, (ip, port), addr),
        call_ensures(SocketAddr::ip, (&addr,), found_ip),
        call_ensures(SocketAddr::port, (&addr,), found_port),
    ensures
        found_ip == ip,
        found_port == port,
        addr is V4 <==> ip is V4,
        addr matches SocketAddr::V6(made) ==> made.flowinfo == 0 && made.scope_id == 0,
{
}

/// Changing the port changes nothing else, and changing it back leads back.
pub proof fn law_port_is_changed_alone(
    addr: SocketAddr,
    port: u16,
    changed: SocketAddr,
    before: u16,
    after: u16,
    ip_before: IpAddr,
    ip_after: IpAddr,
    back: SocketAddr,
)
    requires
        call_ensures(SocketAddr::port, (&addr,), before),
        call_ensures(SocketAddr::ip, (&addr,), ip_before),
        call_ensures(SocketAddr::with_port, (&addr, port), changed),
        call_ensures(SocketAddr::port, (&changed,), after),
        call_ensures(SocketAddr::ip, (&changed,), ip_after),
        call_ensures(SocketAddr::with_port, (&changed, before), back),
    ensures
        after == port,
        ip_after == ip_before,
        back == addr,
        addr matches SocketAddr::V4(own) ==> ip_before == IpAddr::V4(own.ip) && before == own.port,
        addr matches SocketAddr::V6(own) ==> ip_before == IpAddr::V6(own.ip) && before == own.port,
{
}

} // verus!
