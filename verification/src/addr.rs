//! Plain-value model of multi-protocol network addresses.
//!
//! An address of the form `/ip4/<host>/tcp/<port>` is carried as four host
//! octets and a port; a dialable address additionally names the peer that
//! answers there, mirroring the `/p2p/<peer-id>` suffix. The facade listens
//! on the unspecified host `0.0.0.0` and derives its own dialable address by
//! appending its own peer id.

use vstd::prelude::*;
use crate::peer::PeerId;

verus! {

/// A transport-level listen address: IPv4 host octets and a TCP port.
#[derive(PartialEq, Eq, Structural, Clone, Copy, Debug)]
pub struct NetAddr {
    pub host0: u8,
    pub host1: u8,
    pub host2: u8,
    pub host3: u8,
    pub port: u16,
}

/// A dialable address: a transport address together with the peer id of the
/// instance reachable there.
#[derive(PartialEq, Eq, Structural, Clone, Copy, Debug)]
pub struct FullAddr {
    pub addr: NetAddr,
    pub peer: PeerId,
}

impl NetAddr {
    pub fn new(host0: u8, host1: u8, host2: u8, host3: u8, port: u16) -> (r: NetAddr)
        ensures
            r == (NetAddr { host0, host1, host2, host3, port }),
    {
        NetAddr { host0, host1, host2, host3, port }
    }

    /// The wildcard listen address `0.0.0.0:<port>`.
    pub fn unspecified(port: u16) -> (r: NetAddr)
        ensures
            r == (NetAddr { host0: 0u8, host1: 0u8, host2: 0u8, host3: 0u8, port }),
    {
        NetAddr { host0: 0, host1: 0, host2: 0, host3: 0, port }
    }
}

impl FullAddr {
    pub fn new(addr: NetAddr, peer: PeerId) -> (r: FullAddr)
        ensures
            r == (FullAddr { addr, peer }),
    {
        FullAddr { addr, peer }
    }
}

} // verus!
