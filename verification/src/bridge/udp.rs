//! Settings of the serial-to-UDP bridge.

use vstd::prelude::*;

verus! {

/// Configuration for the UDP bridge.
#[derive(Debug, Clone)]
pub struct Config {
    pub serial_port: String,
    pub baud_rate: u32,
    pub udp_port: u16,
}

impl Default for Config {
    fn default() -> (c: Self)
        ensures
            c.serial_port@ == Seq::<char>::empty(),
            c.baud_rate == 2_000_000,
            c.udp_port == 9000,
    {
        Config { serial_port: String::new(), baud_rate: 2_000_000, udp_port: 9000 }
    }
}

} // verus!
