use nflog_decode::bytes::{be16_at, read_u16_be};
use nflog_decode::event::{AddressFamily, CaptureEvent, Timestamp, ARPHRD_ETHER, ARPHRD_VOID};
use nflog_decode::hwheader::HwHeader;
use nflog_decode::mac::{mac2str, parse_as_mac, MacAddr};
use nflog_decode::msg::NflogMessage;
use nflog_decode::packet::{Ipv4Addr, Packet};

fn event() -> CaptureEvent {
    CaptureEvent {
        l3_proto: 0x86dd,
        hwtype: ARPHRD_ETHER,
        hwhdr: None,
        hwaddr: None,
        payload: None,
        family: None,
        prefix: String::from("drop"),
        nfmark: 7,
        timestamp: None,
        indev: 2,
        outdev: 3,
        uid: Some(1000),
        gid: None,
        local_seqnum: Some(11),
        global_seqnum: Some(12),
    }
}

fn ipv4_bytes() -> Vec<u8> {
    vec![
        0x45, 0x00, 0x00, 0x28, 0x1c, 0x46, 0x40, 0x00, 0x40, 0x06, 0xb1, 0xe6, 0xc0, 0xa8, 0x00,
        0x68, 0xc0, 0xa8, 0x00, 0x01,
    ]
}

#[test]
fn mac2str_formats_example() {
    assert_eq!(mac2str(&[0x0a, 0x1b, 0xff]), "0a:1b:ff");
}

#[test]
fn mac2str_single_byte() {
    assert_eq!(mac2str(&[0x00]), "00");
}

#[test]
fn mac2str_shape_of_six_bytes() {
    let bytes = [0xde, 0xad, 0xbe, 0xef, 0x01, 0x9a];
    let s = mac2str(&bytes);
    assert_eq!(s.len(), 17);
    assert_eq!(s.matches(':').count(), 5);
    for (i, group) in s.split(':').enumerate() {
        assert_eq!(u8::from_str_radix(group, 16).unwrap(), bytes[i]);
    }
}

#[test]
fn parse_as_mac_six_bytes() {
    assert_eq!(parse_as_mac(&[1, 2, 3, 4, 5, 6]), Some(MacAddr(1, 2, 3, 4, 5, 6)));
}

#[test]
fn parse_as_mac_wrong_length() {
    assert_eq!(parse_as_mac(&[1, 2, 3, 4, 5]), None);
    assert_eq!(parse_as_mac(&[1, 2, 3, 4, 5, 6, 7]), None);
}

#[test]
fn read_u16_be_values() {
    assert_eq!(read_u16_be(&[0x12, 0x34, 0x56]), Some(0x1234));
    assert_eq!(read_u16_be(&[0x12]), None);
    assert_eq!(read_u16_be(&[]), None);
    assert_eq!(be16_at(&[0, 0x08, 0x00], 1), 0x0800);
}

#[test]
fn ethernet_header_is_read_field_by_field() {
    let mut e = event();
    e.hwhdr = Some(vec![
        0xaa, 0xbb, 0xcc, 0xdd, 0xee, 0xff, 0x11, 0x22, 0x33, 0x44, 0x55, 0x66, 0x08, 0x00,
    ]);
    let h = HwHeader::new(&e);
    assert_eq!(h.saddr, Some(MacAddr(0xaa, 0xbb, 0xcc, 0xdd, 0xee, 0xff)));
    assert_eq!(h.daddr, Some(MacAddr(0x11, 0x22, 0x33, 0x44, 0x55, 0x66)));
    assert_eq!(h.protocol, 0x0800);
    assert_eq!(h.mac_str, None);
    assert_eq!(h.hwtype, Some(ARPHRD_ETHER));
}

#[test]
fn non_ethernet_header_is_kept_as_text() {
    let mut e = event();
    e.hwtype = 772;
    e.hwhdr = Some(vec![1, 2, 3, 4, 5, 6, 7, 0xab]);
    let h = HwHeader::new(&e);
    let text = h.mac_str.clone().unwrap();
    assert_eq!(text.len(), 23);
    assert_eq!(text, "01:02:03:04:05:06:07:ab");
    assert_eq!(h.saddr, None);
    assert_eq!(h.daddr, None);
    assert_eq!(h.protocol, 0x86dd);
    assert_eq!(h.hwtype, Some(772));
}

#[test]
fn short_ethernet_header_falls_back_to_text() {
    let mut e = event();
    e.hwhdr = Some(vec![1, 2, 3, 4, 5]);
    let h = HwHeader::new(&e);
    assert_eq!(h.mac_str, Some(String::from("01:02:03:04:05")));
    assert_eq!(h.saddr, None);
    assert_eq!(h.daddr, None);
    assert_eq!(h.protocol, 0x86dd);
}

#[test]
fn ethernet_header_boundary_at_fourteen_bytes() {
    let mut e = event();
    e.hwhdr = Some(vec![0; 13]);
    assert!(HwHeader::new(&e).mac_str.is_some());
    e.hwhdr = Some(vec![0; 14]);
    let h = HwHeader::new(&e);
    assert_eq!(h.mac_str, None);
    assert_eq!(h.protocol, 0);
}

#[test]
fn source_address_buffer_sets_void_type() {
    let mut e = event();
    e.hwaddr = Some(vec![1, 2, 3, 4, 5, 6]);
    let h = HwHeader::new(&e);
    assert_eq!(h.saddr, Some(MacAddr(1, 2, 3, 4, 5, 6)));
    assert_eq!(h.hwtype, Some(ARPHRD_VOID));
    assert_eq!(h.protocol, 0x86dd);
}

#[test]
fn source_address_buffer_of_wrong_length_is_ignored() {
    let mut e = event();
    e.hwaddr = Some(vec![1, 2, 3, 4]);
    let h = HwHeader::new(&e);
    assert_eq!(h.saddr, None);
    assert_eq!(h.hwtype, None);
}

#[test]
fn source_address_kept_next_to_text_header() {
    let mut e = event();
    e.hwtype = 772;
    e.hwaddr = Some(vec![1, 2, 3, 4, 5, 6]);
    e.hwhdr = Some(vec![0xff, 0x00]);
    let h = HwHeader::new(&e);
    assert_eq!(h.saddr, Some(MacAddr(1, 2, 3, 4, 5, 6)));
    assert_eq!(h.mac_str, Some(String::from("ff:00")));
    assert_eq!(h.hwtype, Some(772));
}

#[test]
fn no_buffers_give_no_addresses() {
    let h = HwHeader::new(&event());
    assert_eq!(h.hwtype, None);
    assert_eq!(h.saddr, None);
    assert_eq!(h.daddr, None);
    assert_eq!(h.mac_str, None);
    assert_eq!(h.protocol, 0x86dd);
}

#[test]
fn non_ipv4_family_gives_no_record() {
    let mut e = event();
    e.payload = Some(ipv4_bytes());
    e.family = Some(AddressFamily::Inet6);
    assert_eq!(Packet::new(&e), None);
    e.family = Some(AddressFamily::Bridge);
    assert_eq!(Packet::new(&e), None);
    e.family = Some(AddressFamily::Other(17));
    assert_eq!(Packet::new(&e), None);
    e.family = None;
    assert_eq!(Packet::new(&e), None);
}

#[test]
fn ipv4_header_fields_are_extracted() {
    let mut e = event();
    e.family = Some(AddressFamily::Inet);
    e.payload = Some(ipv4_bytes());
    let Some(Packet::Ipv4(ip)) = Packet::new(&e) else {
        panic!("expected an IPv4 record");
    };
    assert_eq!(ip.total_len, 40);
    assert_eq!(ip.ttl, 64);
    assert_eq!(ip.protocol, 6);
    assert_eq!(ip.header_len, 5);
    assert_eq!(ip.checksum, 0xb1e6);
    assert_eq!(ip.id, 0x1c46);
    assert_eq!(ip.fragoff, 0x4000);
    assert_eq!(ip.tos, 0);
    assert_eq!(ip.saddr, Ipv4Addr(192, 168, 0, 104));
    assert_eq!(ip.daddr, Ipv4Addr(192, 168, 0, 1));
}

#[test]
fn ipv4_tos_keeps_dscp_bits() {
    let mut p = ipv4_bytes();
    p[1] = 0xb9;
    assert_eq!(Packet::parse_inet(&p).unwrap().tos, 46);
}

#[test]
fn ipv4_payload_without_address_family_or_payload() {
    let mut e = event();
    e.family = Some(AddressFamily::Inet);
    assert_eq!(Packet::new(&e), None);
}

#[test]
fn ipv4_shorter_than_declared_header_gives_no_record() {
    let mut p = ipv4_bytes();
    p[0] = 0x46;
    assert_eq!(Packet::parse_inet(&p), None);
    p.extend_from_slice(&[0, 0, 0]);
    assert_eq!(Packet::parse_inet(&p), None);
    p.push(0);
    assert_eq!(Packet::parse_inet(&p).unwrap().header_len, 6);
    let short = &ipv4_bytes()[..19];
    assert_eq!(Packet::parse_inet(short), None);
    assert_eq!(Packet::parse_inet(&[]), None);
}

#[test]
fn family_codes() {
    assert_eq!(AddressFamily::Inet.code(), 2);
    assert_eq!(AddressFamily::Inet6.code(), 10);
    assert_eq!(AddressFamily::Bridge.code(), 7);
    assert_eq!(AddressFamily::Other(42).code(), 42);
}

#[test]
fn record_copies_metadata_and_decodes() {
    let mut e = event();
    e.family = Some(AddressFamily::Inet);
    e.payload = Some(ipv4_bytes());
    e.hwhdr = Some(vec![
        0xaa, 0xbb, 0xcc, 0xdd, 0xee, 0xff, 0x11, 0x22, 0x33, 0x44, 0x55, 0x66, 0x08, 0x00,
    ]);
    let now = Timestamp { secs: 1_700_000_000, micros: 5 };
    let r = NflogMessage::new(&e, now);
    assert_eq!(r.protocol, 0x0800);
    assert_eq!(r.hw_header.protocol, 0x0800);
    assert_eq!(r.prefix, "drop");
    assert_eq!(r.nfmark, 7);
    assert_eq!(r.timestamp, now);
    assert_eq!((r.indev, r.outdev), (2, 3));
    assert_eq!((r.uid, r.gid), (Some(1000), None));
    assert_eq!((r.local_seqnum, r.global_seqnum), (Some(11), Some(12)));
    assert_eq!(r.family, Some(AddressFamily::Inet));
    assert!(matches!(r.packet, Some(Packet::Ipv4(_))));
}

#[test]
fn decoding_twice_gives_identical_records() {
    let mut e = event();
    e.family = Some(AddressFamily::Inet);
    e.payload = Some(ipv4_bytes());
    e.hwhdr = Some(vec![9, 8, 7]);
    e.timestamp = Some(Timestamp { secs: 10, micros: 20 });
    let now = Timestamp { secs: 5, micros: 6 };
    assert_eq!(NflogMessage::new(&e, now), NflogMessage::new(&e, now));
    let a = NflogMessage::new(&e, Timestamp { secs: 1, micros: 0 });
    let b = NflogMessage::new(&e, Timestamp { secs: 2, micros: 0 });
    assert_eq!(a, b);
    assert_eq!(a.timestamp, Timestamp { secs: 10, micros: 20 });
}

#[test]
fn missing_timestamp_uses_fallback() {
    let e = event();
    let now = Timestamp { secs: 99, micros: 1 };
    assert_eq!(NflogMessage::new(&e, now).timestamp, now);
    let later = Timestamp { secs: 100, micros: 0 };
    assert_eq!(NflogMessage::new(&e, later).timestamp, later);
}
