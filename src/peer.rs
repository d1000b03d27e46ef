use vstd::prelude::*;

verus! {

/// The address of a connected client, held as plain values.
///
/// An IPv4 address sits in the low 32 bits of `ip` with `is_v6` false.
#[derive(Clone, Copy, Debug, PartialEq, Eq, Structural)]
pub struct PeerAddr {
    pub ip: u128,
    pub port: u16,
    pub is_v6: bool,
}

impl PeerAddr {
    /// An IPv4 peer address.
    pub fn v4(octets: u32, port: u16) -> (r: PeerAddr)
        ensures
            r.ip == octets as u128,
            r.port == port,
            !r.is_v6,
    {
        PeerAddr { ip: octets as u128, port, is_v6: false }
    }

    /// An IPv6 peer address.
    pub fn v6(segments: u128, port: u16) -> (r: PeerAddr)
        ensures
            r.ip == segments,
            r.port == port,
            r.is_v6,
    {
        PeerAddr { ip: segments, port, is_v6: true }
    }
}

} // verus!
