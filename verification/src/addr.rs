//! Socket addresses as plain values: an IP address together with a port.
//!
//! Addresses enter this model already validated by the resolver that captured
//! them; this crate carries them through unchanged and does not re-validate
//! beyond these type constraints.

use vstd::prelude::*;

verus! {

/// An IP address: a v4 address held as its 32-bit value, a v6 address held
/// as its 128-bit value.
#[derive(Clone, Copy, Debug, PartialEq, Eq, Hash, Structural)]
pub enum IpAddr {
    V4(u32),
    V6(u128),
}

/// A socket address: an IP address together with a port.
#[derive(Clone, Copy, Debug, PartialEq, Eq, Hash, Structural)]
pub struct Address {
    pub ip: IpAddr,
    pub port: u16,
}

/// The 32-bit value of a v4 address written as four dotted-quad octets.
pub open spec fn v4_value(a: u8, b: u8, c: u8, d: u8) -> u32 {
    ((a as int) * 0x1000000 + (b as int) * 0x10000 + (c as int) * 0x100 + (d as int)) as u32
}

impl Address {
    /// Builds the v4 socket address `a.b.c.d:port`.
    pub fn v4(a: u8, b: u8, c: u8, d: u8, port: u16) -> (r: Address)
        ensures
            r.ip == IpAddr::V4(v4_value(a, b, c, d)),
            r.port == port,
    {
        let value: u32 =
            (a as u32) * 0x1000000 + (b as u32) * 0x10000 + (c as u32) * 0x100 + (d as u32);
        Address { ip: IpAddr::V4(value), port }
    }
}

} // verus!
