//! Packet-capture reading and writing, and bottom-up diagnosis of Ethernet frames.

pub mod bytes;
pub mod pcap;
pub mod certificate;
pub mod diagnosis;
pub mod wire;
pub mod fixtures;
