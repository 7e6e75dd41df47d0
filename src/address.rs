//! Address configuration (static or negotiated) and the peer's endpoint.
use vstd::prelude::*;

verus! {

/// Prefix length given to a statically configured address.
pub const STATIC_PREFIX_LEN: u8 = 24;

/// The four octets that `Ipv4Address::from_str` reads from a text, if it accepts it.
pub uninterp spec fn ipv4_of(s: Seq<char>) -> Option<(u8, u8, u8, u8)>;

/// Relies on `embassy_net::Ipv4Address::from_str` (core's `Ipv4Addr` parser):
/// the octets of a dotted-decimal address, or `None` where it reports an error.
#[verifier::external_body]
fn parse_ipv4(s: &str) -> (r: Option<(u8, u8, u8, u8)>)
    ensures
        r == ipv4_of(s@),
{
    match <embassy_net::Ipv4Address as core::str::FromStr>::from_str(s) {
        Ok(a) => {
            let o = a.octets();
            Some((o[0], o[1], o[2], o[3]))
        },
        Err(_) => None,
    }
}

/// An IPv4 address, most significant octet first.
#[derive(Clone, Copy, Debug, PartialEq, Eq, Structural)]
pub struct Ipv4 {
    pub a: u8,
    pub b: u8,
    pub c: u8,
    pub d: u8,
}

/// The address with the given octets.
pub open spec fn ipv4(o: (u8, u8, u8, u8)) -> Ipv4 {
    Ipv4 { a: o.0, b: o.1, c: o.2, d: o.3 }
}

/// How the interface gets its IPv4 address.
#[derive(Clone, Copy, Debug, PartialEq, Eq, Structural)]
pub enum AddressConfig {
    /// A fixed address and prefix length, with no gateway and no DNS servers.
    Static { address: Ipv4, prefix_len: u8 },
    /// An address negotiated with the network.
    Dynamic,
}

/// A remote IPv4 address and port.
#[derive(Clone, Copy, Debug, PartialEq, Eq, Structural)]
pub struct Endpoint {
    pub address: Ipv4,
    pub port: u16,
}

/// The configuration chosen from a parsed address: static when there is one.
pub open spec fn config_for(parsed: Option<(u8, u8, u8, u8)>) -> AddressConfig {
    match parsed {
        Some(a) => AddressConfig::Static { address: ipv4(a), prefix_len: STATIC_PREFIX_LEN },
        None => AddressConfig::Dynamic,
    }
}

/// The configuration for a parsed address: static, with the fixed prefix
/// length, when an address is given, else dynamic.
pub fn config_from_parsed(parsed: Option<(u8, u8, u8, u8)>) -> (r: AddressConfig)
    ensures
        r == config_for(parsed),
{
    match parsed {
        Some(a) => AddressConfig::Static {
            address: Ipv4 { a: a.0, b: a.1, c: a.2, d: a.3 },
            prefix_len: STATIC_PREFIX_LEN,
        },
        None => AddressConfig::Dynamic,
    }
}

/// The configuration for a configured address text: static when it parses as
/// an IPv4 address, else dynamic.
pub fn address_config(text: &str) -> (r: AddressConfig)
    ensures
        r == config_for(ipv4_of(text@)),
{
    let parsed = parse_ipv4(text);
    config_from_parsed(parsed)
}

/// The endpoint for a parsed address and a port.
pub fn endpoint_from_parsed(parsed: Option<(u8, u8, u8, u8)>, port: u16) -> (r: Option<Endpoint>)
    ensures
        r == (match parsed {
            Some(a) => Some(Endpoint { address: ipv4(a), port }),
            None => None,
        }),
{
    match parsed {
        Some(a) => Some(Endpoint { address: Ipv4 { a: a.0, b: a.1, c: a.2, d: a.3 }, port }),
        None => None,
    }
}

/// The endpoint for an address text and a port, or `None` where the text is
/// not an IPv4 address.
pub fn remote_endpoint(text: &str, port: u16) -> (r: Option<Endpoint>)
    ensures
        r == (match ipv4_of(text@) {
            Some(a) => Some(Endpoint { address: ipv4(a), port }),
            None => None,
        }),
{
    let parsed = parse_ipv4(text);
    endpoint_from_parsed(parsed, port)
}

impl AddressConfig {
    /// Whether start-up must wait for address negotiation to settle.
    pub fn needs_negotiation(&self) -> (r: bool)
        ensures
            r == (*self is Dynamic),
    {
        match self {
            AddressConfig::Static { .. } => false,
            AddressConfig::Dynamic => true,
        }
    }

    /// The address known before any negotiation: the static one, if any.
    pub fn configured_address(&self) -> (r: Option<Ipv4>)
        ensures
            r == (match *self {
                AddressConfig::Static { address, .. } => Some(address),
                AddressConfig::Dynamic => None,
            }),
    {
        match self {
            AddressConfig::Static { address, .. } => Some(*address),
            AddressConfig::Dynamic => None,
        }
    }
}

} // verus!
