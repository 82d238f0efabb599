//! The save stage's decision after it tried to write one file.
//!
//! The stage is the only writer of the local tree. It reports to the
//! accumulator every data file it wrote or tried to write into, so that the
//! result reflects what is on disk; completion markers are never reported.

use crate::jobs::{job_view, JobView, PipelineJob};
use crate::path::{is_marker_path, names_marker};
use vstd::prelude::*;

verus! {

/// How an attempt to save a file ended.
#[derive(Clone, Copy, Debug, PartialEq, Eq, Structural)]
pub enum SaveOutcome {
    /// The file could not be created; nothing is on disk.
    CreateFailed,
    /// The file was created but writing its bytes failed.
    WriteFailed,
    /// The file was created and all its bytes were written.
    Written,
}

/// The job the save stage emits after trying to save `path`: the path, for
/// the accumulator, unless the file could not be created or is a completion
/// marker.
pub open spec fn saved_request(path: Seq<char>, outcome: SaveOutcome) -> Option<JobView> {
    if outcome is CreateFailed || names_marker(path) {
        None
    } else {
        Some(JobView::PathReady { path })
    }
}

/// The job the save stage emits after trying to save `path`.
pub fn saved_job(path: String, outcome: SaveOutcome) -> (job: Option<PipelineJob>)
    ensures
        job_view(job) == saved_request(path@, outcome),
{
    match outcome {
        SaveOutcome::CreateFailed => None,
        _ => {
            if is_marker_path(path.as_str()) {
                None
            } else {
                Some(PipelineJob::PathReady { path })
            }
        },
    }
}

} // verus!
