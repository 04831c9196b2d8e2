//! Plain-value model of network addresses.
//!
//! The sink's logic never inspects an address beyond pairing a resolved IP
//! with the configured port, so addresses are carried as plain numeric
//! values; the surrounding runtime converts them to and from its own socket
//! address types at the boundary.

use vstd::prelude::*;

verus! {

/// An IP address as plain values: four octets for IPv4, eight 16-bit
/// segments for IPv6.
#[derive(Clone, Copy, PartialEq, Eq, Structural, Debug)]
pub enum IpAddress {
    V4(u8, u8, u8, u8),
    V6(u16, u16, u16, u16, u16, u16, u16, u16),
}

/// A fully resolved destination: a concrete IP address plus the configured
/// port, usable for a datagram send.
#[derive(Clone, Copy, PartialEq, Eq, Structural, Debug)]
pub struct Destination {
    pub ip: IpAddress,
    pub port: u16,
}

} // verus!
