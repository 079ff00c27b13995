//! Address resolution: turning a parsed target address into candidate
//! socket endpoints. IPv4 and IPv6 literals resolve deterministically with
//! no I/O; domain names are validated here and looked up by an external
//! DNS resolver, whose answers are paired with the requested port.

use vstd::prelude::*;

use crate::codec::spec_port_of;
use crate::text::{parse_utf8, utf8_text};
use crate::types::{MerinoError, ResponseCode};
use vstd::string::StringExecFns;

verus! {

/// An IPv4 address as four octets.
#[derive(Clone, Copy, Debug, PartialEq, Eq, Structural)]
pub struct Ipv4Parts {
    pub a: u8,
    pub b: u8,
    pub c: u8,
    pub d: u8,
}

/// An IPv6 address as eight 16-bit segments.
#[derive(Clone, Copy, Debug, PartialEq, Eq, Structural)]
pub struct Ipv6Parts {
    pub s0: u16,
    pub s1: u16,
    pub s2: u16,
    pub s3: u16,
    pub s4: u16,
    pub s5: u16,
    pub s6: u16,
    pub s7: u16,
}

/// A concrete IP address, IPv4 or IPv6.
#[derive(Clone, Copy, Debug, PartialEq, Eq, Structural)]
pub enum IpAddress {
    V4(Ipv4Parts),
    V6(Ipv6Parts),
}

/// One candidate endpoint: a concrete IP address paired with a port,
/// eligible for an outbound connection attempt.
#[derive(Clone, Copy, Debug, PartialEq, Eq, Structural)]
pub struct Endpoint {
    pub ip: IpAddress,
    pub port: u16,
}

/// The IPv4 address denoted by four raw request bytes.
pub open spec fn spec_v4_of(addr: Seq<u8>) -> IpAddress {
    IpAddress::V4(Ipv4Parts { a: addr[0], b: addr[1], c: addr[2], d: addr[3] })
}

/// The IPv6 address denoted by sixteen raw request bytes: each segment is
/// two consecutive bytes, big-endian.
pub open spec fn spec_v6_of(addr: Seq<u8>) -> IpAddress {
    IpAddress::V6(
        Ipv6Parts {
            s0: spec_port_of(addr[0], addr[1]),
            s1: spec_port_of(addr[2], addr[3]),
            s2: spec_port_of(addr[4], addr[5]),
            s3: spec_port_of(addr[6], addr[7]),
            s4: spec_port_of(addr[8], addr[9]),
            s5: spec_port_of(addr[10], addr[11]),
            s6: spec_port_of(addr[12], addr[13]),
            s7: spec_port_of(addr[14], addr[15]),
        },
    )
}

/// Merge two big-endian bytes into one IPv6 segment.
fn seg(hi: u8, lo: u8) -> (s: u16)
    ensures
        s == spec_port_of(hi, lo),
{
    (hi as u16) * 256 + (lo as u16)
}

/// Resolve an IPv4 literal: exactly one candidate endpoint, the four
/// octets as given, paired with the requested port. No network call.
pub fn v4_endpoints(addr: &[u8], port: u16) -> (r: Vec<Endpoint>)
    requires
        addr@.len() == 4,
    ensures
        r@ =~= seq![Endpoint { ip: spec_v4_of(addr@), port }],
{
    let ep = Endpoint {
        ip: IpAddress::V4(Ipv4Parts { a: addr[0], b: addr[1], c: addr[2], d: addr[3] }),
        port,
    };
    let mut r: Vec<Endpoint> = Vec::new();
    r.push(ep);
    r
}

/// Resolve an IPv6 literal: exactly one candidate endpoint, the eight
/// big-endian segments as given, paired with the requested port. No
/// network call.
pub fn v6_endpoints(addr: &[u8], port: u16) -> (r: Vec<Endpoint>)
    requires
        addr@.len() == 16,
    ensures
        r@ =~= seq![Endpoint { ip: spec_v6_of(addr@), port }],
{
    let ep = Endpoint {
        ip: IpAddress::V6(
            Ipv6Parts {
                s0: seg(addr[0], addr[1]),
                s1: seg(addr[2], addr[3]),
                s2: seg(addr[4], addr[5]),
                s3: seg(addr[6], addr[7]),
                s4: seg(addr[8], addr[9]),
                s5: seg(addr[10], addr[11]),
                s6: seg(addr[12], addr[13]),
                s7: seg(addr[14], addr[15]),
            },
        ),
        port,
    };
    let mut r: Vec<Endpoint> = Vec::new();
    r.push(ep);
    r
}

/// Validate the name bytes of a domain-name target. Succeeds with the
/// decoded text exactly when the bytes are valid UTF-8; any other bytes
/// are an address-type failure, raised before any DNS lookup is attempted.
pub fn domain_text(name: &[u8]) -> (r: Result<String, MerinoError>)
    ensures
        match r {
            Ok(s) => utf8_text(name@) == Some(s@),
            Err(e) => utf8_text(name@) is None && e == MerinoError::Socks(
                ResponseCode::AddrTypeNotSupported,
            ),
        },
{
    match parse_utf8(name) {
        Some(s) => Ok(String::from_str(s)),
        None => Err(MerinoError::Socks(ResponseCode::AddrTypeNotSupported)),
    }
}

/// Pair every address returned by DNS resolution with the requested port,
/// in the order given, to form the candidate endpoint list.
pub fn endpoints_from_ips(ips: &Vec<IpAddress>, port: u16) -> (r: Vec<Endpoint>)
    ensures
        r@.len() == ips@.len(),
        forall|i: int| 0 <= i < r@.len() ==> r@[i] == (Endpoint { ip: ips@[i], port }),
{
    let mut r: Vec<Endpoint> = Vec::new();
    let mut i: usize = 0;
    while i < ips.len()
        invariant
            i <= ips@.len(),
            r@.len() == i,
            forall|k: int| 0 <= k < i ==> r@[k] == (Endpoint { ip: ips@[k], port }),
        decreases ips@.len() - i,
    {
        r.push(Endpoint { ip: ips[i], port });
        i = i + 1;
    }
    r
}

} // verus!
