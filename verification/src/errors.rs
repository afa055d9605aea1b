//! The error taxonomy of the editor.
//!
//! Every failure is caught at the coordinator boundary and rendered as a
//! transient status notice; none propagates past the UI layer and none
//! terminates the process.

use vstd::prelude::*;

verus! {

/// An error raised by the editor or reported back by the GUI shell after a
/// call into the external media framework.
#[derive(Debug, Clone, PartialEq, Eq)]
pub enum EditorError {
    /// The external framework could not construct a pipeline; `detail` carries
    /// its message.
    PipelineConstruction { detail: String },
    /// The framework did not report a clip duration within the bounded poll.
    /// This is surfaced as an error, never mapped to a silent zero.
    DurationUnavailable,
    /// The trim bounds are rejected: `start >= end`.
    InvalidTimeRange,
    /// The export graph stopped with an error; `element` names the graph
    /// element it originated from and `detail` carries its message.
    ExportFailure { element: String, detail: String },
}

} // verus!
