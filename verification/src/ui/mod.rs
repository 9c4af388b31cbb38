//! What the terminal client shows: which log lines are visible, how text is
//! fitted into a column, the texts of the status panel, the log lines and
//! the mode popup, and where the popup sits. Drawing happens outside the
//! library.

pub mod layout;
pub mod log_view;
pub mod mode_view;
pub mod status_view;
