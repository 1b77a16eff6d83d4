//! The link-layer (hardware) header record of a capture event.

use crate::bytes::{be16, read_u16_be};
use crate::event::{opt_bytes, CaptureEvent, ARPHRD_ETHER, ARPHRD_VOID};
use crate::mac::{mac2str, mac_of, mac_text, parse_as_mac, lemma_mac_text_shape, MacAddr};
use vstd::prelude::*;
use vstd::slice::slice_subrange;

verus! {

/// Link-layer addressing decoded from a capture event.
#[derive(Clone, Debug, PartialEq, Eq)]
pub struct HwHeader {
    /// Network-layer protocol code: the event's, or the one an Ethernet
    /// header carries.
    pub protocol: u16,
    pub hwtype: Option<u16>,
    pub saddr: Option<MacAddr>,
    pub daddr: Option<MacAddr>,
    /// The whole header as colon-separated hexadecimal, when it is not
    /// read as an Ethernet header.
    pub mac_str: Option<String>,
}

/// The contents of a `HwHeader`, with the text as characters.
pub struct HwHeaderView {
    pub protocol: u16,
    pub hwtype: Option<u16>,
    pub saddr: Option<MacAddr>,
    pub daddr: Option<MacAddr>,
    pub mac_str: Option<Seq<char>>,
}

impl View for HwHeader {
    type V = HwHeaderView;

    open spec fn view(&self) -> HwHeaderView {
        HwHeaderView {
            protocol: self.protocol,
            hwtype: self.hwtype,
            saddr: self.saddr,
            daddr: self.daddr,
            mac_str: match self.mac_str {
                Some(s) => Some(s@),
                None => None,
            },
        }
    }
}

/// Whether an optional source-address buffer holds exactly six bytes.
pub open spec fn has_mac_addr(hwaddr: Option<Seq<u8>>) -> bool {
    hwaddr is Some && hwaddr->0.len() == 6
}

/// Whether a header of this type and these bytes is read as Ethernet.
pub open spec fn is_ether_header(hwtype: u16, h: Seq<u8>) -> bool {
    hwtype == ARPHRD_ETHER && h.len() >= 14
}

/// The record decoded from the declared protocol, the declared hardware
/// type, the source-address buffer and the header buffer.
///
/// A six-byte source-address buffer gives the source address and the void
/// hardware type; a buffer of another length is ignored. A non-empty header
/// buffer sets the hardware type to the declared one. An Ethernet header of
/// at least 14 bytes gives source, destination and protocol; any other
/// header is kept as text, next to the source address read before. An empty
/// header buffer counts as no header.
pub open spec fn decode_hw(
    proto: u16,
    hwtype: u16,
    hwaddr: Option<Seq<u8>>,
    hwhdr: Option<Seq<u8>>,
) -> HwHeaderView {
    let base = HwHeaderView {
        protocol: proto,
        hwtype: if has_mac_addr(hwaddr) {
            Some(ARPHRD_VOID)
        } else {
            None
        },
        saddr: if has_mac_addr(hwaddr) {
            Some(mac_of(hwaddr->0))
        } else {
            None
        },
        daddr: None,
        mac_str: None,
    };
    match hwhdr {
        Some(h) if h.len() > 0 => if is_ether_header(hwtype, h) {
            HwHeaderView {
                protocol: be16(h[12], h[13]),
                hwtype: Some(hwtype),
                saddr: Some(mac_of(h.subrange(0, 6))),
                daddr: Some(mac_of(h.subrange(6, 12))),
                mac_str: None,
            }
        } else {
            HwHeaderView { hwtype: Some(hwtype), mac_str: Some(mac_text(h)), ..base }
        },
        _ => base,
    }
}

/// A non-empty header is read field by field exactly when it is an
/// Ethernet header of at least 14 bytes; otherwise it is kept whole as
/// text, `3N - 1` characters for `N` bytes, with no destination address
/// and the declared protocol code.
pub proof fn lemma_header_fallback(
    proto: u16,
    hwtype: u16,
    hwaddr: Option<Seq<u8>>,
    h: Seq<u8>,
)
    requires
        h.len() > 0,
    ensures
        is_ether_header(hwtype, h) ==> decode_hw(proto, hwtype, hwaddr, Some(h)).mac_str is None
            && decode_hw(proto, hwtype, hwaddr, Some(h)).daddr is Some,
        !is_ether_header(hwtype, h) ==> decode_hw(proto, hwtype, hwaddr, Some(h)).mac_str == Some(
            mac_text(h),
        ) && mac_text(h).len() == 3 * h.len() - 1 && decode_hw(proto, hwtype, hwaddr, Some(h)).daddr is None
            && decode_hw(proto, hwtype, hwaddr, Some(h)).protocol == proto,
        decode_hw(proto, hwtype, hwaddr, Some(h)).hwtype == Some(hwtype),
{
    lemma_mac_text_shape(h);
}

impl HwHeader {
    fn default(protocol: u16) -> (r: Self)
        ensures
            r@ == (HwHeaderView {
                protocol,
                hwtype: None,
                saddr: None,
                daddr: None,
                mac_str: None,
            }),
    {
        HwHeader { protocol, hwtype: None, saddr: None, daddr: None, mac_str: None }
    }

    /// Decodes the link-layer addressing of `msg`.
    pub fn new(msg: &CaptureEvent) -> (r: Self)
        ensures
            r@ == decode_hw(msg.l3_proto, msg.hwtype, opt_bytes(msg.hwaddr), opt_bytes(msg.hwhdr)),
    {
        let mut hw_hdr = Self::default(msg.l3_proto);

        if let Some(raw) = &msg.hwaddr {
            if let Some(saddr) = parse_as_mac(raw.as_slice()) {
                hw_hdr.saddr = Some(saddr);
                hw_hdr.hwtype = Some(ARPHRD_VOID);
            }
        }

        if let Some(hwhdr) = &msg.hwhdr {
            if hwhdr.len() > 0 {
                let hwtype = msg.hwtype;
                let h = hwhdr.as_slice();
                if hwtype == ARPHRD_ETHER && h.len() >= 14 {
                    hw_hdr.saddr = parse_as_mac(slice_subrange(h, 0, 6));
                    hw_hdr.daddr = parse_as_mac(slice_subrange(h, 6, 12));
                    if let Some(hwhdr_proto) = read_u16_be(slice_subrange(h, 12, 14)) {
                        hw_hdr.protocol = hwhdr_proto;
                    }
                } else {
                    hw_hdr.mac_str = Some(mac2str(h));
                }
                hw_hdr.hwtype = Some(hwtype);
            }
        }
        hw_hdr
    }
}

} // verus!
