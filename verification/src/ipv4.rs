//! The IPv4 layer: structural parse and header field extraction.
//!
//! A buffer is accepted as an IPv4 packet when it holds at least the
//! 20-byte fixed header.  The payload slice begins after the header
//! (whose length the IHL field declares in 32-bit words, never before
//! byte 20) and extends for the number of bytes the total-length field
//! declares beyond the header, clamped to the end of the buffer; a
//! buffer that ends inside the declared header yields an empty payload.

use vstd::prelude::*;

use crate::bytes::{be16, be32};
use crate::bytes::{read_be16, read_be32};

verus! {

/// Length in bytes of an IPv4 header without options: the least length
/// a buffer must have to parse as IPv4.
pub const IPV4_MIN_HEADER_LEN: usize = 20;

/// The fields of a parsed IPv4 packet.  `payload_start .. payload_end`
/// is the payload's range within the parsed buffer.
#[derive(Debug, Clone, Copy, PartialEq, Eq)]
pub struct Ipv4View {
    pub source: u32,
    pub destination: u32,
    pub protocol: u8,
    pub payload_start: usize,
    pub payload_end: usize,
}

/// The result of interpreting `b` as an IPv4 packet: the extracted
/// fields, or `None` when `b` is shorter than the fixed header.
pub open spec fn spec_parse_ipv4(b: Seq<u8>) -> Option<Ipv4View> {
    if b.len() < IPV4_MIN_HEADER_LEN {
        None
    } else {
        let header_bytes = 4 * (b[0] % 16);
        let total_length = be16(b, 2);
        let start = if header_bytes < IPV4_MIN_HEADER_LEN {
            IPV4_MIN_HEADER_LEN as int
        } else {
            header_bytes as int
        };
        let declared = if total_length >= header_bytes {
            total_length - header_bytes
        } else {
            0
        };
        let end = if start + declared <= b.len() {
            start + declared
        } else {
            b.len() as int
        };
        if b.len() <= start {
            Some(
                Ipv4View {
                    source: be32(b, 12) as u32,
                    destination: be32(b, 16) as u32,
                    protocol: b[9],
                    payload_start: 0,
                    payload_end: 0,
                },
            )
        } else {
            Some(
                Ipv4View {
                    source: be32(b, 12) as u32,
                    destination: be32(b, 16) as u32,
                    protocol: b[9],
                    payload_start: start as usize,
                    payload_end: end as usize,
                },
            )
        }
    }
}

/// The payload range of a parsed IPv4 packet lies within the buffer.
pub proof fn lemma_ipv4_payload_in_bounds(b: Seq<u8>)
    requires
        b.len() <= usize::MAX,
        spec_parse_ipv4(b) is Some,
    ensures
        spec_parse_ipv4(b)->Some_0.payload_start <= spec_parse_ipv4(b)->Some_0.payload_end,
        spec_parse_ipv4(b)->Some_0.payload_end <= b.len(),
{
}

/// Interprets `b` as an IPv4 packet.
pub fn parse_ipv4(b: &[u8]) -> (r: Option<Ipv4View>)
    ensures
        r == spec_parse_ipv4(b@),
        r matches Some(v) ==> v.payload_start <= v.payload_end <= b@.len(),
{
    if b.len() < IPV4_MIN_HEADER_LEN {
        return None;
    }
    let header_bytes: usize = 4 * ((b[0] % 16) as usize);
    let total_length: usize = read_be16(b, 2) as usize;
    let start: usize = if header_bytes < IPV4_MIN_HEADER_LEN {
        IPV4_MIN_HEADER_LEN
    } else {
        header_bytes
    };
    let declared: usize = if total_length >= header_bytes {
        total_length - header_bytes
    } else {
        0
    };
    let end: usize = if start + declared <= b.len() {
        start + declared
    } else {
        b.len()
    };
    let source = read_be32(b, 12);
    let destination = read_be32(b, 16);
    let protocol = b[9];
    if b.len() <= start {
        Some(Ipv4View { source, destination, protocol, payload_start: 0, payload_end: 0 })
    } else {
        Some(Ipv4View { source, destination, protocol, payload_start: start, payload_end: end })
    }
}

} // verus!
