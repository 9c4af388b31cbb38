//! Outcomes of the log operations (clipboard copy and file export).

use vstd::prelude::*;

verus! {

/// Result of a clipboard copy.
#[derive(Debug, Clone, PartialEq, Eq)]
pub enum ClipboardResult {
    /// Number of log lines copied.
    Success(usize),
    Error(String),
}

/// Result of a file export.
#[derive(Debug, Clone, PartialEq, Eq)]
pub enum ExportResult {
    Success { line_count: usize, opened: bool },
    Error(String),
}

} // verus!
