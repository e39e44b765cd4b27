//! Layered decoding of captured link-layer frames.
//!
//! The crate classifies a raw Ethernet frame by walking its encapsulation
//! layers (Ethernet, then IPv4 or IPv6, then UDP), extracts the addressing
//! fields of each layer, and reports a single terminal outcome per frame:
//! a decoded UDP packet whose payload is handed on for recording, a
//! malformed-packet report, or an unknown-protocol classification.

pub mod bytes;
pub mod dispatch;
pub mod ethernet;
pub mod ipv4;
pub mod ipv6;
pub mod laws;
pub mod udp;
