//! Terminal client state: the mode settings popup and how the status of the
//! daemon and its transports is summarised.

pub mod client;
pub mod mode_settings;
pub mod operations;
pub mod state;
