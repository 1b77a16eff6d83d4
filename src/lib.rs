//! Decoding of netfilter log capture events: link-layer header
//! addressing, IPv4 header fields, and the assembled capture record.

pub mod bytes;
pub mod event;
pub mod hwheader;
pub mod mac;
pub mod msg;
pub mod packet;
