//! The Ethernet layer: header field extraction.
//!
//! An Ethernet frame carries the destination and source hardware addresses
//! in its first twelve bytes, followed by the 16-bit ethertype that names
//! the encapsulated protocol.  The payload is everything after the 14-byte
//! header.  The capture layer guarantees that every delivered frame holds
//! at least a full Ethernet header, so this parse is not fallible.

use vstd::prelude::*;

use crate::bytes::{be16, be48};
use crate::bytes::{read_be16, read_be48};

verus! {

/// Length in bytes of an Ethernet header.
pub const ETHERNET_HEADER_LEN: usize = 14;

/// The header fields of an Ethernet frame.  Hardware addresses occupy the
/// low six bytes of a `u64`.
#[derive(Debug, Clone, Copy, PartialEq, Eq)]
pub struct EthernetView {
    pub destination: u64,
    pub source: u64,
    pub ethertype: u16,
}

/// The header fields of the Ethernet frame `f`.
/// Meaningful when `f` holds at least `ETHERNET_HEADER_LEN` bytes.
pub open spec fn spec_parse_ethernet(f: Seq<u8>) -> EthernetView {
    EthernetView {
        destination: be48(f, 0) as u64,
        source: be48(f, 6) as u64,
        ethertype: be16(f, 12) as u16,
    }
}

/// The payload of the Ethernet frame `f`: everything after the header.
pub open spec fn spec_ethernet_payload(f: Seq<u8>) -> Seq<u8> {
    f.subrange(ETHERNET_HEADER_LEN as int, f.len() as int)
}

/// Reads the Ethernet header fields of `frame`.
pub fn parse_ethernet(frame: &[u8]) -> (r: EthernetView)
    requires
        frame@.len() >= ETHERNET_HEADER_LEN,
    ensures
        r == spec_parse_ethernet(frame@),
{
    EthernetView {
        destination: read_be48(frame, 0),
        source: read_be48(frame, 6),
        ethertype: read_be16(frame, 12),
    }
}

} // verus!
