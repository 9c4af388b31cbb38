//! WebSocket transport: a server on a port, one client at a time (the last
//! connection wins).

use vstd::prelude::*;

verus! {

/// WebSocket transport for browser clients.
pub struct WebSocketTransport {
    port: u16,
}

impl WebSocketTransport {
    pub closed spec fn spec_port(&self) -> u16 {
        self.port
    }

    /// A transport serving on `port`.
    pub fn new(port: u16) -> (t: WebSocketTransport)
        ensures
            t.spec_port() == port,
    {
        WebSocketTransport { port }
    }

    /// The port served on.
    pub fn port(&self) -> (p: u16)
        ensures
            p == self.spec_port(),
    {
        self.port
    }
}

} // verus!
