//! Network peers as plain values.

use vstd::prelude::*;

verus! {

/// An IPv4 socket address: the address as a big-endian integer
/// (`a.b.c.d` is `a << 24 | b << 16 | c << 8 | d`) and the port.
#[derive(Clone, Copy, Debug, PartialEq, Eq, Hash, Structural)]
pub struct PeerAddress {
    pub ip: u32,
    pub port: u16,
}

impl PeerAddress {
    pub fn new(ip: u32, port: u16) -> (r: PeerAddress)
        ensures
            r == (PeerAddress { ip, port }),
    {
        PeerAddress { ip, port }
    }
}

} // verus!
