//! Proved laws of the dispatcher.
//!
//! Each proof function here states, over the dispatcher's spec
//! functions, a guarantee that holds of every frame: which frames are
//! recorded and what exactly is recorded, that short buffers are
//! reported malformed before any deeper layer is consulted, that
//! unspecialized ethertypes and transport protocols end dispatch at
//! once, and that dispatch is a pure function of the frame bytes.

use vstd::prelude::*;

use crate::dispatch::{
    spec_dispatch, spec_handle_ipv4, spec_handle_transport, spec_handle_udp, Dispatch, IpAddress,
    IpVersion, Summary, ETHERTYPE_IPV4, ETHERTYPE_IPV6, PROTOCOL_UDP,
};
use crate::ethernet::{spec_ethernet_payload, spec_parse_ethernet, ETHERNET_HEADER_LEN};
use crate::ipv4::{lemma_ipv4_payload_in_bounds, spec_parse_ipv4, IPV4_MIN_HEADER_LEN};
use crate::ipv6::{lemma_ipv6_payload_in_bounds, spec_parse_ipv6};
use crate::udp::{spec_parse_udp, UDP_HEADER_LEN};

verus! {

/// Whether the frame `f` fully parses as Ethernet, then IPv4 or IPv6
/// as its ethertype names, then UDP as its next-level protocol, with a
/// structurally valid UDP header.
pub open spec fn spec_is_udp_frame(f: Seq<u8>) -> bool {
    let eth = spec_parse_ethernet(f);
    let p = spec_ethernet_payload(f);
    if eth.ethertype == ETHERTYPE_IPV4 {
        match spec_parse_ipv4(p) {
            Some(v) => v.protocol == PROTOCOL_UDP && spec_parse_udp(
                p.subrange(v.payload_start as int, v.payload_end as int),
            ) is Some,
            None => false,
        }
    } else if eth.ethertype == ETHERTYPE_IPV6 {
        match spec_parse_ipv6(p) {
            Some(v) => v.next_header == PROTOCOL_UDP && spec_parse_udp(
                p.subrange(v.payload_start as int, v.payload_end as int),
            ) is Some,
            None => false,
        }
    } else {
        false
    }
}

/// The IP-layer payload of the frame `f`: the payload slice of the IP
/// packet inside the Ethernet payload.  Meaningful when that IP layer
/// parses.
pub open spec fn spec_ip_payload(f: Seq<u8>) -> Seq<u8> {
    let p = spec_ethernet_payload(f);
    if spec_parse_ethernet(f).ethertype == ETHERTYPE_IPV4 {
        let v = spec_parse_ipv4(p)->Some_0;
        p.subrange(v.payload_start as int, v.payload_end as int)
    } else {
        let v = spec_parse_ipv6(p)->Some_0;
        p.subrange(v.payload_start as int, v.payload_end as int)
    }
}

/// A buffer shorter than the least IPv4 header is reported as a
/// malformed IPv4 packet outright: no transport-layer outcome is
/// produced and nothing is recorded.
pub proof fn lemma_short_ipv4_is_malformed(b: Seq<u8>)
    requires
        b.len() < IPV4_MIN_HEADER_LEN,
    ensures
        spec_handle_ipv4(b) == (Dispatch {
            summary: Summary::MalformedIp { version: IpVersion::V4 },
            record: None,
        }),
{
}

/// A buffer shorter than the UDP header is reported as a malformed UDP
/// packet and nothing is recorded.
pub proof fn lemma_short_udp_is_malformed(source: IpAddress, destination: IpAddress, b: Seq<u8>)
    requires
        b.len() < UDP_HEADER_LEN,
    ensures
        spec_handle_udp(source, destination, b) == (Dispatch {
            summary: Summary::MalformedUdp,
            record: None,
        }),
{
}

/// Dispatch records bytes exactly when the frame fully parses as a UDP
/// packet, and what it records is the IP-layer payload, byte for byte.
pub proof fn lemma_record_iff_udp_frame(f: Seq<u8>)
    requires
        ETHERNET_HEADER_LEN <= f.len() <= usize::MAX,
    ensures
        spec_dispatch(f).record is Some <==> spec_is_udp_frame(f),
        spec_dispatch(f).summary is Udp <==> spec_is_udp_frame(f),
        spec_dispatch(f).record matches Some(rr) ==> rr.start + rr.len <= f.len() && f.subrange(
            rr.start as int,
            rr.start + rr.len,
        ) == spec_ip_payload(f),
{
    let eth = spec_parse_ethernet(f);
    let p = spec_ethernet_payload(f);
    if eth.ethertype == ETHERTYPE_IPV4 {
        match spec_parse_ipv4(p) {
            Some(v) => {
                lemma_ipv4_payload_in_bounds(p);
                let q = p.subrange(v.payload_start as int, v.payload_end as int);
                if v.protocol == PROTOCOL_UDP && q.len() >= UDP_HEADER_LEN {
                    assert(f.subrange(
                        ETHERNET_HEADER_LEN + v.payload_start,
                        ETHERNET_HEADER_LEN + v.payload_end,
                    ) =~= q);
                }
            },
            None => {},
        }
    } else if eth.ethertype == ETHERTYPE_IPV6 {
        match spec_parse_ipv6(p) {
            Some(v) => {
                lemma_ipv6_payload_in_bounds(p);
                let q = p.subrange(v.payload_start as int, v.payload_end as int);
                if v.next_header == PROTOCOL_UDP && q.len() >= UDP_HEADER_LEN {
                    assert(f.subrange(
                        ETHERNET_HEADER_LEN + v.payload_start,
                        ETHERNET_HEADER_LEN + v.payload_end,
                    ) =~= q);
                }
            },
            None => {},
        }
    }
}

/// Dispatch is a pure function of the frame bytes: frames with equal
/// bytes yield equal outcomes, so dispatching a frame twice reports
/// the same summary twice and records the same range twice.
pub proof fn lemma_dispatch_deterministic(f1: Seq<u8>, f2: Seq<u8>)
    requires
        f1 == f2,
    ensures
        spec_dispatch(f1) == spec_dispatch(f2),
{
}

/// A frame whose ethertype names neither IPv4 nor IPv6 is classified
/// as unknown ethertype outright: no IP-layer decode takes place and
/// nothing is recorded.
pub proof fn lemma_unknown_ethertype_is_terminal(f: Seq<u8>)
    requires
        ETHERNET_HEADER_LEN <= f.len() <= usize::MAX,
        spec_parse_ethernet(f).ethertype != ETHERTYPE_IPV4,
        spec_parse_ethernet(f).ethertype != ETHERTYPE_IPV6,
    ensures
        spec_dispatch(f) == (Dispatch {
            summary: Summary::UnknownEthertype {
                destination: spec_parse_ethernet(f).destination,
                source: spec_parse_ethernet(f).source,
                ethertype: spec_parse_ethernet(f).ethertype,
                payload_len: (f.len() - ETHERNET_HEADER_LEN) as usize,
            },
            record: None,
        }),
{
}

/// An IP packet whose next-level protocol is not UDP is classified as
/// unknown transport outright: no UDP-layer decode takes place and
/// nothing is recorded.
pub proof fn lemma_unknown_protocol_is_terminal(
    source: IpAddress,
    destination: IpAddress,
    protocol: u8,
    b: Seq<u8>,
)
    requires
        protocol != PROTOCOL_UDP,
    ensures
        spec_handle_transport(source, destination, protocol, b) == (Dispatch {
            summary: Summary::UnknownTransport {
                source,
                destination,
                protocol,
                payload_len: b.len() as usize,
            },
            record: None,
        }),
{
}

} // verus!
