//! The protocol dispatcher: classifies one frame per call.
//!
//! Dispatch walks a captured frame's encapsulation layers — Ethernet,
//! then IPv4 or IPv6, then UDP — and returns exactly one terminal
//! outcome: the summary to report and, for a fully parsed UDP packet,
//! the range of bytes to hand to the recording sink.  The dispatcher
//! keeps no state: the outcome is a pure function of the frame bytes,
//! pinned by `spec_dispatch`.

use vstd::prelude::*;
use vstd::slice::slice_subrange;

use crate::ethernet::{spec_ethernet_payload, spec_parse_ethernet, ETHERNET_HEADER_LEN};
use crate::ethernet::parse_ethernet;
use crate::ipv4::spec_parse_ipv4;
use crate::ipv4::parse_ipv4;
use crate::ipv6::spec_parse_ipv6;
use crate::ipv6::parse_ipv6;
use crate::udp::spec_parse_udp;
use crate::udp::parse_udp;

verus! {

/// Ethertype of an encapsulated IPv4 packet.
pub const ETHERTYPE_IPV4: u16 = 0x0800;

/// Ethertype of an encapsulated IPv6 packet.
pub const ETHERTYPE_IPV6: u16 = 0x86DD;

/// IP next-level-protocol id of UDP.
pub const PROTOCOL_UDP: u8 = 17;

/// The IP version a packet was decoded as.
#[derive(Debug, Clone, Copy, PartialEq, Eq)]
pub enum IpVersion {
    V4,
    V6,
}

/// An IP address tagged with its version: an IPv4 address as its four
/// bytes in big-endian order, an IPv6 address as its sixteen.
#[derive(Debug, Clone, Copy, PartialEq, Eq)]
pub enum IpAddress {
    V4(u32),
    V6(u128),
}

impl IpAddress {
    /// The version tag of this address.
    pub open spec fn spec_version(self) -> IpVersion {
        match self {
            IpAddress::V4(_) => IpVersion::V4,
            IpAddress::V6(_) => IpVersion::V6,
        }
    }

    /// Returns the version tag of this address.
    pub fn version(&self) -> (r: IpVersion)
        ensures
            r == self.spec_version(),
    {
        match self {
            IpAddress::V4(_) => IpVersion::V4,
            IpAddress::V6(_) => IpVersion::V6,
        }
    }
}

/// The informational content of the one summary line a dispatch emits.
#[derive(Debug, Clone, Copy, PartialEq, Eq)]
pub enum Summary {
    /// A fully decoded UDP packet: addresses, ports and the length the
    /// UDP header declares.
    Udp {
        source: IpAddress,
        destination: IpAddress,
        source_port: u16,
        destination_port: u16,
        length: u16,
    },
    /// An IP packet whose next-level protocol is not specialized; the
    /// raw protocol id and the IP payload length are reported.
    UnknownTransport { source: IpAddress, destination: IpAddress, protocol: u8, payload_len: usize },
    /// An IP payload routed to UDP but too short for a UDP header.
    MalformedUdp,
    /// An Ethernet payload that fails the structural parse of the IP
    /// version its ethertype names.
    MalformedIp { version: IpVersion },
    /// A frame whose ethertype is not specialized; the hardware
    /// addresses, the raw ethertype and the payload length are reported.
    UnknownEthertype { destination: u64, source: u64, ethertype: u16, payload_len: usize },
}

/// A range of bytes within the dispatched frame, handed to the
/// recording sink.
#[derive(Debug, Clone, Copy, PartialEq, Eq)]
pub struct RecordRange {
    pub start: usize,
    pub len: usize,
}

/// The terminal outcome of dispatching one frame: the summary to
/// report, and the bytes to record if the frame carried UDP.
#[derive(Debug, Clone, Copy, PartialEq, Eq)]
pub struct Dispatch {
    pub summary: Summary,
    pub record: Option<RecordRange>,
}

/// The outcome of routing an IP payload believed to carry UDP: the
/// decoded summary together with the whole payload as the range to
/// record, or the malformed-UDP report with nothing recorded.
pub open spec fn spec_handle_udp(source: IpAddress, destination: IpAddress, b: Seq<u8>) -> Dispatch {
    match spec_parse_udp(b) {
        Some(u) => Dispatch {
            summary: Summary::Udp {
                source,
                destination,
                source_port: u.source,
                destination_port: u.destination,
                length: u.length,
            },
            record: Some(RecordRange { start: 0, len: b.len() as usize }),
        },
        None => Dispatch { summary: Summary::MalformedUdp, record: None },
    }
}

/// The outcome of routing an IP payload by its next-level protocol:
/// UDP is decoded further, every other protocol is reported as unknown
/// transport with nothing recorded.
pub open spec fn spec_handle_transport(
    source: IpAddress,
    destination: IpAddress,
    protocol: u8,
    b: Seq<u8>,
) -> Dispatch {
    if protocol == PROTOCOL_UDP {
        spec_handle_udp(source, destination, b)
    } else {
        Dispatch {
            summary: Summary::UnknownTransport {
                source,
                destination,
                protocol,
                payload_len: b.len() as usize,
            },
            record: None,
        }
    }
}

/// The same outcome with the recorded range, if any, moved `off` bytes
/// outward, re-expressing it relative to an enclosing buffer.
pub open spec fn spec_shift_record(d: Dispatch, off: usize) -> Dispatch {
    match d.record {
        Some(rr) => Dispatch {
            summary: d.summary,
            record: Some(RecordRange { start: (rr.start + off) as usize, len: rr.len }),
        },
        None => d,
    }
}

/// The outcome of decoding an Ethernet payload as IPv4: on a structural
/// parse the transport layer routes the IP payload, otherwise the
/// malformed-IPv4 report with nothing recorded.
pub open spec fn spec_handle_ipv4(b: Seq<u8>) -> Dispatch {
    match spec_parse_ipv4(b) {
        Some(v) => spec_shift_record(
            spec_handle_transport(
                IpAddress::V4(v.source),
                IpAddress::V4(v.destination),
                v.protocol,
                b.subrange(v.payload_start as int, v.payload_end as int),
            ),
            v.payload_start,
        ),
        None => Dispatch { summary: Summary::MalformedIp { version: IpVersion::V4 }, record: None },
    }
}

/// The outcome of decoding an Ethernet payload as IPv6: on a structural
/// parse the transport layer routes the IP payload, otherwise the
/// malformed-IPv6 report with nothing recorded.
pub open spec fn spec_handle_ipv6(b: Seq<u8>) -> Dispatch {
    match spec_parse_ipv6(b) {
        Some(v) => spec_shift_record(
            spec_handle_transport(
                IpAddress::V6(v.source),
                IpAddress::V6(v.destination),
                v.next_header,
                b.subrange(v.payload_start as int, v.payload_end as int),
            ),
            v.payload_start,
        ),
        None => Dispatch { summary: Summary::MalformedIp { version: IpVersion::V6 }, record: None },
    }
}

/// The terminal outcome of dispatching the frame `f`: Ethernet fields
/// are read, the payload is routed by ethertype to the IPv4 or IPv6
/// decoder, and any other ethertype is reported as unknown with
/// nothing recorded.  Meaningful when `f` holds at least an Ethernet
/// header.
pub open spec fn spec_dispatch(f: Seq<u8>) -> Dispatch {
    let eth = spec_parse_ethernet(f);
    if eth.ethertype == ETHERTYPE_IPV4 {
        spec_shift_record(spec_handle_ipv4(spec_ethernet_payload(f)), ETHERNET_HEADER_LEN)
    } else if eth.ethertype == ETHERTYPE_IPV6 {
        spec_shift_record(spec_handle_ipv6(spec_ethernet_payload(f)), ETHERNET_HEADER_LEN)
    } else {
        Dispatch {
            summary: Summary::UnknownEthertype {
                destination: eth.destination,
                source: eth.source,
                ethertype: eth.ethertype,
                payload_len: (f.len() - ETHERNET_HEADER_LEN) as usize,
            },
            record: None,
        }
    }
}

/// Re-expresses a recorded range relative to an enclosing buffer that
/// holds the dispatched one at offset `off`.
fn shift_record(d: Dispatch, off: usize) -> (r: Dispatch)
    requires
        d.record matches Some(rr) ==> rr.start + off <= usize::MAX,
    ensures
        r == spec_shift_record(d, off),
{
    match d.record {
        Some(rr) => Dispatch {
            summary: d.summary,
            record: Some(RecordRange { start: rr.start + off, len: rr.len }),
        },
        None => d,
    }
}

/// Routes an IP payload believed to carry UDP: decodes the UDP header
/// and marks the whole payload for recording, or reports it malformed.
pub fn handle_udp_packet(source: IpAddress, destination: IpAddress, packet: &[u8]) -> (r: Dispatch)
    ensures
        r == spec_handle_udp(source, destination, packet@),
        r.record matches Some(rr) ==> rr.start + rr.len <= packet@.len(),
{
    match parse_udp(packet) {
        Some(u) => Dispatch {
            summary: Summary::Udp {
                source,
                destination,
                source_port: u.source,
                destination_port: u.destination,
                length: u.length,
            },
            record: Some(RecordRange { start: 0, len: packet.len() }),
        },
        None => Dispatch { summary: Summary::MalformedUdp, record: None },
    }
}

/// Routes an IP payload by its next-level protocol: UDP is decoded
/// further, every other protocol is reported as unknown transport.
pub fn handle_transport_protocol(
    source: IpAddress,
    destination: IpAddress,
    protocol: u8,
    packet: &[u8],
) -> (r: Dispatch)
    ensures
        r == spec_handle_transport(source, destination, protocol, packet@),
        r.record matches Some(rr) ==> rr.start + rr.len <= packet@.len(),
{
    if protocol == PROTOCOL_UDP {
        handle_udp_packet(source, destination, packet)
    } else {
        Dispatch {
            summary: Summary::UnknownTransport {
                source,
                destination,
                protocol,
                payload_len: packet.len(),
            },
            record: None,
        }
    }
}

/// Decodes an Ethernet payload as IPv4 and routes its payload onward,
/// or reports the packet malformed.
pub fn handle_ipv4_packet(packet: &[u8]) -> (r: Dispatch)
    ensures
        r == spec_handle_ipv4(packet@),
        r.record matches Some(rr) ==> rr.start + rr.len <= packet@.len(),
{
    match parse_ipv4(packet) {
        Some(v) => {
            let payload = slice_subrange(packet, v.payload_start, v.payload_end);
            let d = handle_transport_protocol(
                IpAddress::V4(v.source),
                IpAddress::V4(v.destination),
                v.protocol,
                payload,
            );
            shift_record(d, v.payload_start)
        },
        None => Dispatch { summary: Summary::MalformedIp { version: IpVersion::V4 }, record: None },
    }
}

/// Decodes an Ethernet payload as IPv6 and routes its payload onward,
/// or reports the packet malformed.
pub fn handle_ipv6_packet(packet: &[u8]) -> (r: Dispatch)
    ensures
        r == spec_handle_ipv6(packet@),
        r.record matches Some(rr) ==> rr.start + rr.len <= packet@.len(),
{
    match parse_ipv6(packet) {
        Some(v) => {
            let payload = slice_subrange(packet, v.payload_start, v.payload_end);
            let d = handle_transport_protocol(
                IpAddress::V6(v.source),
                IpAddress::V6(v.destination),
                v.next_header,
                payload,
            );
            shift_record(d, v.payload_start)
        },
        None => Dispatch { summary: Summary::MalformedIp { version: IpVersion::V6 }, record: None },
    }
}

/// Dispatches one captured frame: reads the Ethernet header, routes the
/// payload by ethertype, and returns the terminal outcome.  The capture
/// layer guarantees a full Ethernet header, so shorter buffers are
/// excluded here.
pub fn handle_packet(frame: &[u8]) -> (r: Dispatch)
    requires
        frame@.len() >= ETHERNET_HEADER_LEN,
    ensures
        r == spec_dispatch(frame@),
        r.record matches Some(rr) ==> rr.start + rr.len <= frame@.len(),
{
    let n: usize = frame.len();
    let eth = parse_ethernet(frame);
    if eth.ethertype == ETHERTYPE_IPV4 {
        let payload = slice_subrange(frame, ETHERNET_HEADER_LEN, n);
        let d = handle_ipv4_packet(payload);
        shift_record(d, ETHERNET_HEADER_LEN)
    } else if eth.ethertype == ETHERTYPE_IPV6 {
        let payload = slice_subrange(frame, ETHERNET_HEADER_LEN, n);
        let d = handle_ipv6_packet(payload);
        shift_record(d, ETHERNET_HEADER_LEN)
    } else {
        Dispatch {
            summary: Summary::UnknownEthertype {
                destination: eth.destination,
                source: eth.source,
                ethertype: eth.ethertype,
                payload_len: n - ETHERNET_HEADER_LEN,
            },
            record: None,
        }
    }
}

} // verus!
