use packetdump::bytes::{read_be128, read_be16, read_be32, read_be48};
use packetdump::ethernet::parse_ethernet;
use packetdump::ipv4::{parse_ipv4, Ipv4View};
use packetdump::ipv6::parse_ipv6;
use packetdump::udp::{parse_udp, UdpView};

#[test]
fn big_endian_fields_are_read_exactly() {
    let b = [
        0x01, 0x02, 0x03, 0x04, 0x05, 0x06, 0x07, 0x08, 0x09, 0x0A, 0x0B, 0x0C, 0x0D, 0x0E, 0x0F,
        0x10,
    ];
    assert_eq!(read_be16(&b, 0), 0x0102);
    assert_eq!(read_be16(&b, 14), 0x0F10);
    assert_eq!(read_be32(&b, 2), 0x03040506);
    assert_eq!(read_be48(&b, 4), 0x05060708090A);
    assert_eq!(read_be128(&b, 0), 0x0102030405060708090A0B0C0D0E0F10);
}

#[test]
fn ethernet_header_fields_are_extracted() {
    let mut f = vec![0xDE, 0xAD, 0xBE, 0xEF, 0x00, 0x01, 0xCA, 0xFE, 0xBA, 0xBE, 0x00, 0x02];
    f.extend([0x08, 0x06]);
    f.extend([0u8; 4]);
    let e = parse_ethernet(&f);
    assert_eq!(e.destination, 0xDEADBEEF0001);
    assert_eq!(e.source, 0xCAFEBABE0002);
    assert_eq!(e.ethertype, 0x0806);
}

#[test]
fn ipv4_shorter_than_minimum_header_is_rejected() {
    assert_eq!(parse_ipv4(&[0u8; 19]), None);
    assert_eq!(parse_ipv4(&[]), None);
    assert!(parse_ipv4(&[0x45u8; 20]).is_some());
}

#[test]
fn ipv4_payload_follows_the_declared_header_length() {
    // IHL 6: a 24-byte header with 4 bytes of options; total length 30.
    let mut b = vec![0x46, 0x00, 0x00, 0x1E, 0x00, 0x00, 0x00, 0x00, 0x40, 0x11, 0x00, 0x00];
    b.extend([1, 2, 3, 4, 5, 6, 7, 8]);
    b.extend([0xAA, 0xBB, 0xCC, 0xDD]);
    b.extend([0xEE; 6]);
    let v = parse_ipv4(&b).unwrap();
    assert_eq!(
        v,
        Ipv4View {
            source: 0x01020304,
            destination: 0x05060708,
            protocol: 17,
            payload_start: 24,
            payload_end: 30,
        }
    );
}

#[test]
fn ipv4_payload_is_clamped_to_the_buffer() {
    // Total length 40 declared, but only 28 bytes present.
    let mut b = vec![0x45, 0x00, 0x00, 0x28, 0x00, 0x00, 0x00, 0x00, 0x40, 0x11, 0x00, 0x00];
    b.extend([1, 2, 3, 4, 5, 6, 7, 8]);
    b.extend([0u8; 8]);
    let v = parse_ipv4(&b).unwrap();
    assert_eq!(v.payload_start, 20);
    assert_eq!(v.payload_end, 28);
}

#[test]
fn ipv4_header_length_below_minimum_starts_after_fixed_header() {
    // IHL 3 declares a header shorter than the fixed part; the payload
    // still starts at byte 20.
    let mut b = vec![0x43, 0x00, 0x00, 0x1C, 0x00, 0x00, 0x00, 0x00, 0x40, 0x11, 0x00, 0x00];
    b.extend([1, 2, 3, 4, 5, 6, 7, 8]);
    b.extend([9, 9, 9, 9, 9, 9, 9, 9]);
    let v = parse_ipv4(&b).unwrap();
    assert_eq!(v.payload_start, 20);
    assert_eq!(v.payload_end, 28);
}

#[test]
fn ipv4_buffer_ending_inside_declared_header_has_empty_payload() {
    // IHL 15 declares a 60-byte header but only 20 bytes are present.
    let b = [0x4F, 0x00, 0x00, 0x3C, 0x00, 0x00, 0x00, 0x00, 0x40, 0x11, 0x00, 0x00, 1, 2, 3, 4,
        5, 6, 7, 8];
    let v = parse_ipv4(&b).unwrap();
    assert_eq!(v.payload_start, 0);
    assert_eq!(v.payload_end, 0);
}

#[test]
fn ipv4_total_length_smaller_than_header_has_empty_payload() {
    // Total length 10 is less than the 20-byte header; nothing remains
    // for the payload.
    let mut b = vec![0x45, 0x00, 0x00, 0x0A, 0x00, 0x00, 0x00, 0x00, 0x40, 0x11, 0x00, 0x00];
    b.extend([1, 2, 3, 4, 5, 6, 7, 8]);
    b.extend([7, 7, 7, 7]);
    let v = parse_ipv4(&b).unwrap();
    assert_eq!(v.payload_start, 20);
    assert_eq!(v.payload_end, 20);
}

#[test]
fn ipv6_shorter_than_fixed_header_is_rejected() {
    assert_eq!(parse_ipv6(&[0u8; 39]), None);
    assert!(parse_ipv6(&[0u8; 40]).is_some());
}

#[test]
fn ipv6_payload_is_bounded_by_declared_length_and_buffer() {
    let mut b = vec![0x60, 0x00, 0x00, 0x00, 0x00, 0x04, 0x11, 0x40];
    b.extend([0u8; 32]);
    b.extend([1, 2, 3, 4, 5, 6]);
    // Declared payload length 4, buffer holds 6 beyond the header.
    let v = parse_ipv6(&b).unwrap();
    assert_eq!(v.payload_start, 40);
    assert_eq!(v.payload_end, 44);
    assert_eq!(v.next_header, 17);
}

#[test]
fn udp_header_fields_are_extracted() {
    let b = [0x13, 0x88, 0x00, 0x35, 0x00, 0x19, 0xAB, 0xCD, 0xFF];
    assert_eq!(
        parse_udp(&b),
        Some(UdpView { source: 5000, destination: 53, length: 25 })
    );
    assert_eq!(parse_udp(&b[..7]), None);
}
