//! Socket and IP addresses as plain numbers.
use vstd::prelude::*;

verus! {

/// An IP address: IPv4 as its 32 bits, IPv6 as its 128 bits (most
/// significant first, as `u32::from(Ipv4Addr)` and `u128::from(Ipv6Addr)`
/// give them).
#[derive(PartialEq, Eq, Structural, Clone, Copy)]
pub enum IpAddress {
    V4(u32),
    V6(u128),
}

/// A socket address.
#[allow(inconsistent_fields)]
#[derive(PartialEq, Eq, Structural, Clone, Copy)]
pub enum SockAddr {
    V4 { ip: u32, port: u16 },
    V6 { ip: u128, port: u16, flowinfo: u32, scope_id: u32 },
}

} // verus!
