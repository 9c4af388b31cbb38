//! Transports: where the bridge reads and writes bytes. The library keeps
//! what each transport is configured with and how a serial device is chosen;
//! the I/O runs outside it.

pub mod serial;
pub mod udp;
pub mod websocket;

pub use serial::SerialTransport;
pub use udp::UdpTransport;
pub use websocket::WebSocketTransport;
