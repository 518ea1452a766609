//! Codec for the fixed twelve-byte header of a DNS / mDNS message.
//!
//! The header is decoded from wire bytes into a typed [`header::Header`],
//! with every operation code and response code checked against its registry,
//! and encoded back into the same twelve bytes.

pub mod codec;
pub mod header;
pub mod parser;

use vstd::prelude::*;

verus! {

/// The mDNS link-local IPv4 multicast group, 224.0.0.251, as a big-endian integer.
pub const MDNS_LINK_LOCAL_IPV4_BITS: u32 = 0xE000_00FB;

/// The mDNS link-local IPv6 multicast group, ff02::fb, as a big-endian integer.
pub const MDNS_LINK_LOCAL_IPV6_BITS: u128 = 0xFF02_0000_0000_0000_0000_0000_0000_00FB;

/// The UDP port of mDNS.
pub const MDNS_LINK_LOCAL_PORT: u16 = 5353;

} // verus!
