//! Application-wide constants.

use vstd::prelude::*;

verus! {

/// Default UDP port for controller (desktop app simulation).
pub const DEFAULT_CONTROLLER_UDP_PORT: u16 = 8000;
/// Default WebSocket port for controller (browser app simulation).
pub const DEFAULT_CONTROLLER_WEBSOCKET_PORT: u16 = 8100;
/// Default UDP port for host communication (9000 hardware, 9001 native, 9002 wasm).
pub const DEFAULT_HOST_UDP_PORT: u16 = 9000;
/// Default WebSocket port for host communication.
pub const DEFAULT_HOST_WEBSOCKET_PORT: u16 = 8000;
/// Default UDP port for log broadcasting (daemon to TUI).
pub const DEFAULT_LOG_BROADCAST_PORT: u16 = 9999;
/// Default TCP control port for local IPC.
pub const DEFAULT_CONTROL_PORT: u16 = 7999;
/// Delay between serial reconnection attempts (seconds).
pub const RECONNECT_DELAY_SECS: u64 = 2;
/// Delay after connection loss before retry (seconds).
pub const POST_DISCONNECT_DELAY_SECS: u64 = 3;
/// Status message display timeout (seconds).
pub const STATUS_MESSAGE_TIMEOUT_SECS: u64 = 2;
/// Maximum socket bind retry attempts.
pub const MAX_SOCKET_RETRY_ATTEMPTS: u32 = 5;
/// Base delay between retry attempts (milliseconds).
pub const RETRY_BASE_DELAY_MS: u64 = 200;
/// Frame duration for the TUI loop (milliseconds).
pub const FRAME_DURATION_MS: u64 = 8;
/// Number of lines to scroll per page.
pub const PAGE_SCROLL_LINES: usize = 10;
/// Auto-scroll threshold (lines from bottom).
pub const AUTO_SCROLL_THRESHOLD: usize = 5;
/// Timeout before considering the log connection lost (seconds).
pub const LOG_CONNECTION_TIMEOUT_SECS: u64 = 5;
/// Width threshold for the wide/narrow layout switch.
pub const WIDE_THRESHOLD: u16 = 80;
/// Width of the filter sidebar in wide mode.
pub const SIDEBAR_WIDTH: u16 = 16;
/// UDP receive buffer size.
pub const UDP_BUFFER_SIZE: usize = 4096;
/// Channel capacity for async message passing.
pub const CHANNEL_CAPACITY: usize = 256;
/// Consecutive serial read failures before the link counts as lost.
pub const SERIAL_DISCONNECT_THRESHOLD: u32 = 10;

} // verus!
