//! Logging: entries, filters and the in-memory log store.

pub mod entry;
pub mod file;
pub mod filter;
pub mod store;

pub use entry::{Direction, LogEntry, LogKind, LogLevel};
pub use filter::{FilterMode, LogFilter};
pub use store::LogStore;
