//! The IPv6 layer: structural parse and header field extraction.
//!
//! A buffer is accepted as an IPv6 packet when it holds at least the
//! fixed 40-byte header.  The payload begins at byte 40 and extends for
//! the number of bytes the payload-length field declares, clamped to the
//! end of the buffer; a buffer of exactly the header yields an empty
//! payload.

use vstd::prelude::*;

use crate::bytes::{be128, be16};
use crate::bytes::{read_be128, read_be16};

verus! {

/// Length in bytes of the fixed IPv6 header: the least length a buffer
/// must have to parse as IPv6.
pub const IPV6_HEADER_LEN: usize = 40;

/// The fields of a parsed IPv6 packet.  `payload_start .. payload_end`
/// is the payload's range within the parsed buffer.
#[derive(Debug, Clone, Copy, PartialEq, Eq)]
pub struct Ipv6View {
    pub source: u128,
    pub destination: u128,
    pub next_header: u8,
    pub payload_start: usize,
    pub payload_end: usize,
}

/// The result of interpreting `b` as an IPv6 packet: the extracted
/// fields, or `None` when `b` is shorter than the fixed header.
pub open spec fn spec_parse_ipv6(b: Seq<u8>) -> Option<Ipv6View> {
    if b.len() < IPV6_HEADER_LEN {
        None
    } else {
        let declared = be16(b, 4);
        let end = if IPV6_HEADER_LEN + declared <= b.len() {
            IPV6_HEADER_LEN + declared
        } else {
            b.len() as int
        };
        if b.len() <= IPV6_HEADER_LEN {
            Some(
                Ipv6View {
                    source: be128(b, 8) as u128,
                    destination: be128(b, 24) as u128,
                    next_header: b[6],
                    payload_start: 0,
                    payload_end: 0,
                },
            )
        } else {
            Some(
                Ipv6View {
                    source: be128(b, 8) as u128,
                    destination: be128(b, 24) as u128,
                    next_header: b[6],
                    payload_start: IPV6_HEADER_LEN,
                    payload_end: end as usize,
                },
            )
        }
    }
}

/// The payload range of a parsed IPv6 packet lies within the buffer.
pub proof fn lemma_ipv6_payload_in_bounds(b: Seq<u8>)
    requires
        b.len() <= usize::MAX,
        spec_parse_ipv6(b) is Some,
    ensures
        spec_parse_ipv6(b)->Some_0.payload_start <= spec_parse_ipv6(b)->Some_0.payload_end,
        spec_parse_ipv6(b)->Some_0.payload_end <= b.len(),
{
}

/// Interprets `b` as an IPv6 packet.
pub fn parse_ipv6(b: &[u8]) -> (r: Option<Ipv6View>)
    ensures
        r == spec_parse_ipv6(b@),
        r matches Some(v) ==> v.payload_start <= v.payload_end <= b@.len(),
{
    if b.len() < IPV6_HEADER_LEN {
        return None;
    }
    let declared: usize = read_be16(b, 4) as usize;
    let end: usize = if IPV6_HEADER_LEN + declared <= b.len() {
        IPV6_HEADER_LEN + declared
    } else {
        b.len()
    };
    let source = read_be128(b, 8);
    let destination = read_be128(b, 24);
    let next_header = b[6];
    if b.len() <= IPV6_HEADER_LEN {
        Some(Ipv6View { source, destination, next_header, payload_start: 0, payload_end: 0 })
    } else {
        Some(
            Ipv6View {
                source,
                destination,
                next_header,
                payload_start: IPV6_HEADER_LEN,
                payload_end: end,
            },
        )
    }
}

} // verus!
