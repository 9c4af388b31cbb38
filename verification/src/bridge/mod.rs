//! Bridge protocol logic.

pub mod controller_rpc;
pub mod guard;
pub mod persistence_job_protocol;
pub mod protocol;
pub mod runner;
pub mod session;
pub mod stats;
pub mod stream_parser;
pub mod udp;
