//! The capture record: event metadata together with the decoded
//! link-layer and network-layer records.

use crate::event::{opt_bytes, AddressFamily, CaptureEvent, Timestamp};
use crate::hwheader::{decode_hw, HwHeader, HwHeaderView};
use crate::packet::{packet_of, Packet};
use vstd::prelude::*;

verus! {

/// One decoded capture event.
#[derive(Clone, Debug, PartialEq, Eq)]
pub struct NflogMessage {
    pub family: Option<AddressFamily>,
    /// The network-layer protocol code that the link-layer decoding settled on.
    pub protocol: u16,
    pub prefix: String,
    pub nfmark: u32,
    pub timestamp: Timestamp,
    pub indev: u32,
    pub outdev: u32,
    pub uid: Option<u32>,
    pub gid: Option<u32>,
    pub local_seqnum: Option<u32>,
    pub global_seqnum: Option<u32>,
    pub hw_header: HwHeader,
    pub packet: Option<Packet>,
}

/// The contents of an `NflogMessage`, with text as characters.
pub struct NflogMessageView {
    pub family: Option<AddressFamily>,
    pub protocol: u16,
    pub prefix: Seq<char>,
    pub nfmark: u32,
    pub timestamp: Timestamp,
    pub indev: u32,
    pub outdev: u32,
    pub uid: Option<u32>,
    pub gid: Option<u32>,
    pub local_seqnum: Option<u32>,
    pub global_seqnum: Option<u32>,
    pub hw_header: HwHeaderView,
    pub packet: Option<Packet>,
}

impl View for NflogMessage {
    type V = NflogMessageView;

    open spec fn view(&self) -> NflogMessageView {
        NflogMessageView {
            family: self.family,
            protocol: self.protocol,
            prefix: self.prefix@,
            nfmark: self.nfmark,
            timestamp: self.timestamp,
            indev: self.indev,
            outdev: self.outdev,
            uid: self.uid,
            gid: self.gid,
            local_seqnum: self.local_seqnum,
            global_seqnum: self.global_seqnum,
            hw_header: self.hw_header@,
            packet: self.packet,
        }
    }
}

/// The link-layer record of an event.
pub open spec fn hw_header_of(e: CaptureEvent) -> HwHeaderView {
    decode_hw(e.l3_proto, e.hwtype, opt_bytes(e.hwaddr), opt_bytes(e.hwhdr))
}

/// The record of event `e`, with `now` standing in for a missing capture
/// time. The metadata is copied, the protocol code is the one the
/// link-layer record settled on, and the network-layer record is decoded
/// from the event's own address family.
pub open spec fn capture_record(e: CaptureEvent, now: Timestamp) -> NflogMessageView {
    NflogMessageView {
        family: e.family,
        protocol: hw_header_of(e).protocol,
        prefix: e.prefix@,
        nfmark: e.nfmark,
        timestamp: match e.timestamp {
            Some(t) => t,
            None => now,
        },
        indev: e.indev,
        outdev: e.outdev,
        uid: e.uid,
        gid: e.gid,
        local_seqnum: e.local_seqnum,
        global_seqnum: e.global_seqnum,
        hw_header: hw_header_of(e),
        packet: packet_of(e.family, opt_bytes(e.payload)),
    }
}

impl NflogMessage {
    /// Decodes `msg`, taking `now` as its time when it carries none.
    pub fn new(msg: &CaptureEvent, now: Timestamp) -> (r: Self)
        ensures
            r@ == capture_record(*msg, now),
    {
        let hw_header = HwHeader::new(msg);
        let packet = Packet::new(msg);
        let timestamp = match msg.timestamp {
            Some(t) => t,
            None => now,
        };
        NflogMessage {
            family: msg.family,
            protocol: hw_header.protocol,
            prefix: msg.prefix.clone(),
            nfmark: msg.nfmark,
            timestamp,
            indev: msg.indev,
            outdev: msg.outdev,
            uid: msg.uid,
            gid: msg.gid,
            local_seqnum: msg.local_seqnum,
            global_seqnum: msg.global_seqnum,
            hw_header,
            packet,
        }
    }
}

/// Decoding is a function of the event: two decodings of one event,
/// with any two fallback times, differ in nothing but the time, and not
/// even there when the event carries its own.
pub proof fn lemma_decode_deterministic(e: CaptureEvent, now1: Timestamp, now2: Timestamp)
    ensures
        capture_record(e, now1) == (NflogMessageView {
            timestamp: capture_record(e, now1).timestamp,
            ..capture_record(e, now2)
        }),
        e.timestamp is Some ==> capture_record(e, now1) == capture_record(e, now2),
{
}

} // verus!
