//! The network-layer record of a capture event: IPv4 header fields.

use crate::bytes::{be16, be16_at};
use crate::event::{opt_bytes, AddressFamily, CaptureEvent};
use vstd::prelude::*;

verus! {

/// An IPv4 address, as its four octets in network order.
#[derive(Clone, Copy, Debug, PartialEq, Eq, Structural)]
pub struct Ipv4Addr(pub u8, pub u8, pub u8, pub u8);

/// Fixed-position fields of an IPv4 header.
#[derive(Clone, Copy, Debug, PartialEq, Eq, Structural)]
pub struct Ipv4 {
    pub saddr: Ipv4Addr,
    pub daddr: Ipv4Addr,
    pub protocol: u8,
    /// The DSCP bits: the upper six bits of the second byte.
    pub tos: u8,
    pub ttl: u8,
    pub total_len: u16,
    /// Header length in 32-bit words.
    pub header_len: u8,
    /// Header checksum as transmitted, not verified.
    pub checksum: u16,
    pub id: u16,
    /// Flags and fragment offset, as the wire field holds them.
    pub fragoff: u16,
}

/// The network-layer record of a capture event, one variant per family.
#[derive(Clone, Copy, Debug, PartialEq, Eq, Structural)]
pub enum Packet {
    Ipv4(Ipv4),
}

/// The header length, in bytes, that an IPv4 header declares.
pub open spec fn declared_header_bytes(p: Seq<u8>) -> int {
    (p[0] % 16) as int * 4
}

/// Whether `p` is long enough to hold the IPv4 header it declares: at
/// least 20 bytes, and at least the declared header length.
pub open spec fn ipv4_header_fits(p: Seq<u8>) -> bool {
    p.len() >= 20 && p.len() >= declared_header_bytes(p)
}

/// The fields of the IPv4 header at the start of `p`.
pub open spec fn ipv4_fields(p: Seq<u8>) -> Ipv4 {
    Ipv4 {
        saddr: Ipv4Addr(p[12], p[13], p[14], p[15]),
        daddr: Ipv4Addr(p[16], p[17], p[18], p[19]),
        protocol: p[9],
        tos: p[1] / 4,
        ttl: p[8],
        total_len: be16(p[2], p[3]),
        header_len: p[0] % 16,
        checksum: be16(p[10], p[11]),
        id: be16(p[4], p[5]),
        fragoff: be16(p[6], p[7]),
    }
}

/// The IPv4 record of a payload, when it holds its whole declared header.
pub open spec fn ipv4_of(p: Seq<u8>) -> Option<Ipv4> {
    if ipv4_header_fits(p) {
        Some(ipv4_fields(p))
    } else {
        None
    }
}

/// The network-layer record of an event with this family and payload:
/// present only for IPv4 with a payload that holds its header.
pub open spec fn packet_of(family: Option<AddressFamily>, payload: Option<Seq<u8>>) -> Option<
    Packet,
> {
    match (family, payload) {
        (Some(AddressFamily::Inet), Some(p)) => match ipv4_of(p) {
            Some(ip) => Some(Packet::Ipv4(ip)),
            None => None,
        },
        _ => None,
    }
}

/// An event whose family is not IPv4 has no network-layer record,
/// whatever its payload.
pub proof fn lemma_non_ipv4_has_no_record(family: Option<AddressFamily>, payload: Option<Seq<u8>>)
    requires
        family != Some(AddressFamily::Inet),
    ensures
        packet_of(family, payload) is None,
{
}

/// An IPv4 payload shorter than 20 bytes or than the header length it
/// declares gives no record at all.
pub proof fn lemma_short_ipv4_has_no_record(payload: Seq<u8>)
    requires
        payload.len() < 20 || payload.len() < declared_header_bytes(payload),
    ensures
        packet_of(Some(AddressFamily::Inet), Some(payload)) is None,
{
}

impl Packet {
    /// Decodes the network-layer record of `msg`.
    pub fn new(msg: &CaptureEvent) -> (r: Option<Self>)
        ensures
            r == packet_of(msg.family, opt_bytes(msg.payload)),
    {
        let family = match msg.family {
            Some(f) => f,
            None => return None,
        };
        let payload = match &msg.payload {
            Some(p) => p,
            None => return None,
        };
        match family {
            AddressFamily::Inet => match Self::parse_inet(payload.as_slice()) {
                Some(ip) => Some(Packet::Ipv4(ip)),
                None => None,
            },
            _ => None,
        }
    }

    /// Reads the IPv4 header at the start of `payload`, if it holds the
    /// whole header it declares.
    pub fn parse_inet(payload: &[u8]) -> (r: Option<Ipv4>)
        ensures
            r == ipv4_of(payload@),
    {
        if payload.len() < 20 {
            return None;
        }
        let header_len = payload[0] % 16;
        if payload.len() < (header_len as usize) * 4 {
            return None;
        }
        Some(
            Ipv4 {
                saddr: Ipv4Addr(payload[12], payload[13], payload[14], payload[15]),
                daddr: Ipv4Addr(payload[16], payload[17], payload[18], payload[19]),
                protocol: payload[9],
                tos: payload[1] / 4,
                ttl: payload[8],
                total_len: be16_at(payload, 2),
                header_len,
                checksum: be16_at(payload, 10),
                id: be16_at(payload, 4),
                fragoff: be16_at(payload, 6),
            },
        )
    }
}

} // verus!
