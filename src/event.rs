//! The capture event handed to the decoders, as plain values.

use vstd::prelude::*;

verus! {

/// Hardware type code of Ethernet framing (Linux `ARPHRD_ETHER`).
pub const ARPHRD_ETHER: u16 = 1;

/// Hardware type code of a void, address-less device (Linux `ARPHRD_VOID`).
pub const ARPHRD_VOID: u16 = 0xFFFF;

/// Linux socket address family code of IPv4 (`AF_INET`).
pub const AF_INET: i32 = 2;

/// Linux socket address family code of bridge frames (`AF_BRIDGE`).
pub const AF_BRIDGE: i32 = 7;

/// Linux socket address family code of IPv6 (`AF_INET6`).
pub const AF_INET6: i32 = 10;

/// The network-layer address family that a capture event declares.
#[derive(Clone, Copy, Debug, PartialEq, Eq, Structural)]
pub enum AddressFamily {
    Inet,
    Inet6,
    Bridge,
    /// Any other family, by its numeric code.
    Other(i32),
}

/// The numeric code of a family.
pub open spec fn family_code_spec(f: AddressFamily) -> i32 {
    match f {
        AddressFamily::Inet => AF_INET,
        AddressFamily::Inet6 => AF_INET6,
        AddressFamily::Bridge => AF_BRIDGE,
        AddressFamily::Other(c) => c,
    }
}

impl AddressFamily {
    /// The numeric code of this family.
    pub fn code(&self) -> (r: i32)
        ensures
            r == family_code_spec(*self),
    {
        match self {
            AddressFamily::Inet => AF_INET,
            AddressFamily::Inet6 => AF_INET6,
            AddressFamily::Bridge => AF_BRIDGE,
            AddressFamily::Other(c) => *c,
        }
    }
}

/// A point in time: seconds and microseconds since the Unix epoch.
#[derive(Clone, Copy, Debug, PartialEq, Eq, Structural)]
pub struct Timestamp {
    pub secs: i64,
    pub micros: u32,
}

/// One captured frame: its metadata and its raw byte buffers.
#[derive(Clone, Debug, PartialEq, Eq)]
pub struct CaptureEvent {
    /// Declared network-layer protocol code.
    pub l3_proto: u16,
    /// Declared hardware type code.
    pub hwtype: u16,
    /// Raw hardware-header bytes, if the frame carried a header.
    pub hwhdr: Option<Vec<u8>>,
    /// Raw hardware source-address bytes, if any.
    pub hwaddr: Option<Vec<u8>>,
    /// Raw network-layer payload bytes, if any.
    pub payload: Option<Vec<u8>>,
    /// Declared address family, if known.
    pub family: Option<AddressFamily>,
    pub prefix: String,
    pub nfmark: u32,
    /// Capture time, if the event carried one.
    pub timestamp: Option<Timestamp>,
    pub indev: u32,
    pub outdev: u32,
    pub uid: Option<u32>,
    pub gid: Option<u32>,
    pub local_seqnum: Option<u32>,
    pub global_seqnum: Option<u32>,
}

/// The contents of an optional byte buffer.
pub open spec fn opt_bytes(o: Option<Vec<u8>>) -> Option<Seq<u8>> {
    match o {
        Some(v) => Some(v@),
        None => None,
    }
}

} // verus!
