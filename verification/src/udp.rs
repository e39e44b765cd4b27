//! The UDP layer: structural parse and header field extraction.
//!
//! A buffer is accepted as a UDP packet when it holds at least the
//! 8-byte header: source port, destination port, declared length and
//! checksum, each 16 bits.  The declared length is reported as the
//! header states it; it is not validated against the buffer.

use vstd::prelude::*;

use crate::bytes::be16;
use crate::bytes::read_be16;

verus! {

/// Length in bytes of a UDP header: the least length a buffer must have
/// to parse as UDP.
pub const UDP_HEADER_LEN: usize = 8;

/// The header fields of a parsed UDP packet.
#[derive(Debug, Clone, Copy, PartialEq, Eq)]
pub struct UdpView {
    pub source: u16,
    pub destination: u16,
    pub length: u16,
}

/// The result of interpreting `b` as a UDP packet: the header fields,
/// or `None` when `b` is shorter than the header.
pub open spec fn spec_parse_udp(b: Seq<u8>) -> Option<UdpView> {
    if b.len() < UDP_HEADER_LEN {
        None
    } else {
        Some(
            UdpView {
                source: be16(b, 0) as u16,
                destination: be16(b, 2) as u16,
                length: be16(b, 4) as u16,
            },
        )
    }
}

/// Interprets `b` as a UDP packet.
pub fn parse_udp(b: &[u8]) -> (r: Option<UdpView>)
    ensures
        r == spec_parse_udp(b@),
{
    if b.len() < UDP_HEADER_LEN {
        return None;
    }
    Some(UdpView { source: read_be16(b, 0), destination: read_be16(b, 2), length: read_be16(b, 4) })
}

} // verus!
