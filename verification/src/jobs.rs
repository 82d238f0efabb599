//! The units of work that flow between the stages of the pipeline.

use crate::timestamp::Timestamp;
use vstd::prelude::*;

verus! {

/// The number of download workers that share the queue of incomplete
/// buckets.
pub const NUM_DOWNLOADERS: usize = 3;

/// The capacity of the queue of incomplete buckets; the producer blocks
/// when it is full.
pub const DOWNLOAD_QUEUE_CAPACITY: usize = 100;

/// The capacity of the accumulator's queue of ready paths.
pub const READY_QUEUE_CAPACITY: usize = 100;

/// The capacity of the save stage's queue. It is kept small so that slow
/// disk writes hold back the download workers.
pub const SAVE_QUEUE_CAPACITY: usize = 10;

/// A unit of work handed from one stage of the pipeline to the next.
#[derive(Clone, Debug)]
pub enum PipelineJob {
    /// An incomplete bucket, for the download workers.
    BucketToCheck {
        /// The bucket's local directory.
        dir: String,
        /// The hour the bucket covers.
        hour: Timestamp,
    },
    /// Bytes to be written to a local file, for the save stage. Covers data
    /// files and completion markers alike.
    SaveRequest {
        /// Where the bytes go.
        path: String,
        /// What is written.
        bytes: Vec<u8>,
    },
    /// A file or a directory whose data files belong in the result, for the
    /// accumulator.
    PathReady {
        /// The file or directory.
        path: String,
    },
}

/// The mathematical content of a [`PipelineJob`].
pub enum JobView {
    /// See [`PipelineJob::BucketToCheck`].
    BucketToCheck { dir: Seq<char>, hour: int },
    /// See [`PipelineJob::SaveRequest`].
    SaveRequest { path: Seq<char>, bytes: Seq<u8> },
    /// See [`PipelineJob::PathReady`].
    PathReady { path: Seq<char> },
}

impl View for PipelineJob {
    type V = JobView;

    open spec fn view(&self) -> JobView {
        match self {
            PipelineJob::BucketToCheck { dir, hour } => JobView::BucketToCheck {
                dir: dir@,
                hour: hour@,
            },
            PipelineJob::SaveRequest { path, bytes } => JobView::SaveRequest {
                path: path@,
                bytes: bytes@,
            },
            PipelineJob::PathReady { path } => JobView::PathReady { path: path@ },
        }
    }
}

/// The view of an optional job.
pub open spec fn job_view(job: Option<PipelineJob>) -> Option<JobView> {
    match job {
        Some(j) => Some(j@),
        None => None,
    }
}

} // verus!
