//! Socket-address types and normalization to the IPv4 form the wire format
//! requires.
use vstd::prelude::*;

verus! {

/// An IPv4 address, one field per octet of the dotted form `a.b.c.d`.
#[derive(Clone, Copy, Debug, PartialEq, Eq, Structural)]
pub struct Ipv4Address {
    pub a: u8,
    pub b: u8,
    pub c: u8,
    pub d: u8,
}

/// An IPv6 address as its eight 16-bit segments.
#[derive(Clone, Copy, Debug, PartialEq, Eq, Structural)]
pub struct Ipv6Address {
    pub s0: u16,
    pub s1: u16,
    pub s2: u16,
    pub s3: u16,
    pub s4: u16,
    pub s5: u16,
    pub s6: u16,
    pub s7: u16,
}

/// Either kind of IP address, as handed over by the transport layer.
#[derive(Clone, Copy, Debug, PartialEq, Eq, Structural)]
pub enum IpAddress {
    V4(Ipv4Address),
    V6(Ipv6Address),
}

/// An IP endpoint as the transport layer reports it: address of either kind,
/// plus port.
#[derive(Clone, Copy, Debug, PartialEq, Eq, Structural)]
pub struct SocketAddress {
    pub ip: IpAddress,
    pub port: u16,
}

/// The wire representation of an endpoint: always IPv4, plus port.
#[derive(Clone, Copy, Debug, PartialEq, Eq, Structural)]
pub struct SystemAddress {
    pub ip: Ipv4Address,
    pub port: u16,
}

impl Ipv4Address {
    /// The IPv4 loopback address 127.0.0.1.
    pub open spec fn localhost_spec() -> Ipv4Address {
        Ipv4Address { a: 127, b: 0, c: 0, d: 1 }
    }

    /// Executable constructor for 127.0.0.1.
    pub fn localhost() -> (r: Ipv4Address)
        ensures
            r == Ipv4Address::localhost_spec(),
    {
        Ipv4Address { a: 127, b: 0, c: 0, d: 1 }
    }
}

impl Ipv6Address {
    /// The IPv6 loopback address `::1`: all segments zero but the last, which
    /// is one.
    pub open spec fn is_loopback(self) -> bool {
        self.s0 == 0 && self.s1 == 0 && self.s2 == 0 && self.s3 == 0 && self.s4 == 0
            && self.s5 == 0 && self.s6 == 0 && self.s7 == 1
    }
}

/// Whether an address has a defined IPv4 form: it already is IPv4, or it is
/// the IPv6 loopback. Anything else has no slot in the wire format.
pub open spec fn ipv4_mappable(ip: IpAddress) -> bool {
    match ip {
        IpAddress::V4(_) => true,
        IpAddress::V6(v) => v.is_loopback(),
    }
}

/// The IPv4 form of a mappable address: IPv4 input is kept unchanged, the
/// IPv6 loopback maps to 127.0.0.1.
pub open spec fn ipv4_of(ip: IpAddress) -> Ipv4Address
    recommends
        ipv4_mappable(ip),
{
    match ip {
        IpAddress::V4(v) => v,
        IpAddress::V6(_) => Ipv4Address::localhost_spec(),
    }
}

/// The wire form of an endpoint: the address normalized to IPv4, the port
/// kept unchanged.
pub open spec fn normalize_spec(sa: SocketAddress) -> SystemAddress
    recommends
        ipv4_mappable(sa.ip),
{
    SystemAddress { ip: ipv4_of(sa.ip), port: sa.port }
}

/// Tests whether an address has a defined IPv4 form, so a caller can rule
/// the others out before asking for it.
pub fn is_ipv4_mappable(ip: IpAddress) -> (r: bool)
    ensures
        r == ipv4_mappable(ip),
{
    match ip {
        IpAddress::V4(_) => true,
        IpAddress::V6(v) => {
            v.s0 == 0 && v.s1 == 0 && v.s2 == 0 && v.s3 == 0 && v.s4 == 0 && v.s5 == 0 && v.s6 == 0
                && v.s7 == 1
        },
    }
}

/// Converts an address to its IPv4 equivalent. A non-loopback IPv6 address
/// has none: the caller must rule it out beforehand, because reaching this
/// point with one is a deployment defect, not a per-connection error.
pub fn get_ipv4(ip: IpAddress) -> (r: Ipv4Address)
    requires
        ipv4_mappable(ip),
    ensures
        r == ipv4_of(ip),
{
    match ip {
        IpAddress::V4(v) => v,
        IpAddress::V6(_) => Ipv4Address::localhost(),
    }
}

/// Normalizes an endpoint to its wire form, keeping the port.
pub fn normalize_address(sa: SocketAddress) -> (r: SystemAddress)
    requires
        ipv4_mappable(sa.ip),
    ensures
        r == normalize_spec(sa),
{
    SystemAddress { ip: get_ipv4(sa.ip), port: sa.port }
}

/// The endpoint a wire-form address denotes, read back as a socket address.
pub open spec fn as_socket_address(sys: SystemAddress) -> SocketAddress {
    SocketAddress { ip: IpAddress::V4(sys.ip), port: sys.port }
}

/// Law: on IPv4 input, normalization is the identity, and hence idempotent:
/// normalizing an already-normalized endpoint changes nothing.
pub proof fn lemma_normalize_idempotent_on_ipv4(sa: SocketAddress)
    requires
        sa.ip is V4,
    ensures
        as_socket_address(normalize_spec(sa)) == sa,
        normalize_spec(as_socket_address(normalize_spec(sa))) == normalize_spec(sa),
{
}

/// Law: the IPv6 loopback endpoint normalizes to 127.0.0.1 whatever its port,
/// and the port is kept.
pub proof fn lemma_normalize_v6_loopback(sa: SocketAddress)
    requires
        sa.ip matches IpAddress::V6(v) && v.is_loopback(),
    ensures
        normalize_spec(sa).ip == Ipv4Address::localhost_spec(),
        normalize_spec(sa).port == sa.port,
{
}

} // verus!
