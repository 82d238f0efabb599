//! A download worker's handling of one incomplete bucket.
//!
//! The worker lists the remote files of the hour, then takes them one by
//! one: a file already on disk goes straight to the accumulator, a missing
//! one is fetched and handed to the save stage, a failed fetch is skipped.
//! When all names are dealt with, a stale hour gets its completion marker.
//! The worker never writes to disk itself.

use crate::bucket::{marker_job, marker_request};
use crate::error::GoesArchError;
use crate::jobs::{job_view, JobView, PipelineJob};
use crate::path::{join, joined};
use crate::product::Product;
use crate::remote::RemoteArchive;
use crate::satellite::Satellite;
use crate::timestamp::{civil_text, is_stale_at, Timestamp};
use vstd::prelude::*;

verus! {

/// What became of one remote file name.
#[derive(Clone, Debug)]
pub enum FileOutcome {
    /// A local file of that name exists already.
    AlreadyLocal,
    /// The file was missing and its bytes were fetched.
    Fetched {
        /// The file's contents.
        bytes: Vec<u8>,
    },
    /// The file was missing and the fetch failed.
    FetchFailed,
}

/// The mathematical content of a [`FileOutcome`].
pub enum OutcomeView {
    /// See [`FileOutcome::AlreadyLocal`].
    AlreadyLocal,
    /// See [`FileOutcome::Fetched`].
    Fetched { bytes: Seq<u8> },
    /// See [`FileOutcome::FetchFailed`].
    FetchFailed,
}

impl View for FileOutcome {
    type V = OutcomeView;

    open spec fn view(&self) -> OutcomeView {
        match self {
            FileOutcome::AlreadyLocal => OutcomeView::AlreadyLocal,
            FileOutcome::Fetched { bytes } => OutcomeView::Fetched { bytes: bytes@ },
            FileOutcome::FetchFailed => OutcomeView::FetchFailed,
        }
    }
}

/// The job a worker emits for the local path of one remote file: the path
/// itself where the file is there already, a save request where it was
/// fetched, nothing where the fetch failed.
pub open spec fn file_request(path: Seq<char>, outcome: OutcomeView) -> Option<JobView> {
    match outcome {
        OutcomeView::AlreadyLocal => Some(JobView::PathReady { path }),
        OutcomeView::Fetched { bytes } => Some(JobView::SaveRequest { path, bytes }),
        OutcomeView::FetchFailed => None,
    }
}

/// The job a worker emits for the local path of one remote file.
pub fn file_job(path: String, outcome: FileOutcome) -> (job: Option<PipelineJob>)
    ensures
        job_view(job) == file_request(path@, outcome@),
{
    match outcome {
        FileOutcome::AlreadyLocal => Some(PipelineJob::PathReady { path }),
        FileOutcome::Fetched { bytes } => Some(PipelineJob::SaveRequest { path, bytes }),
        FileOutcome::FetchFailed => None,
    }
}

/// The progress of a worker through one bucket.
#[derive(Debug)]
pub struct BucketDownload {
    dir: String,
    hour: Timestamp,
    names: Vec<String>,
    next: usize,
}

/// The mathematical content of a [`BucketDownload`].
pub struct DownloadView {
    /// The bucket's local directory.
    pub dir: Seq<char>,
    /// The hour the bucket covers.
    pub hour: int,
    /// The file names the remote listed for the hour.
    pub names: Seq<Seq<char>>,
    /// How many of the names have been dealt with.
    pub next: nat,
}

impl DownloadView {
    /// Whether every listed name has been dealt with.
    pub open spec fn is_done(self) -> bool {
        self.next >= self.names.len()
    }

    /// The local path of the name that is next in line.
    pub open spec fn pending_path(self) -> Seq<char> {
        joined(self.dir, self.names[self.next as int])
    }

    /// The state after the name next in line has been dealt with.
    pub open spec fn advanced(self) -> DownloadView {
        DownloadView { next: self.next + 1, ..self }
    }

    /// The marker request due when the clock reads `now`: one for a bucket
    /// whose names are all dealt with and whose hour is stale, none
    /// otherwise.
    pub open spec fn completion(self, now: int) -> Option<JobView> {
        if self.is_done() && is_stale_at(self.hour, now) {
            Some(marker_request(self.dir, civil_text(now)))
        } else {
            None
        }
    }
}

impl View for BucketDownload {
    type V = DownloadView;

    closed spec fn view(&self) -> DownloadView {
        DownloadView {
            dir: self.dir@,
            hour: self.hour@,
            names: self.names.deep_view(),
            next: self.next as nat,
        }
    }
}

impl BucketDownload {
    /// Starts on a bucket from the outcome of the remote listing. A failed
    /// listing abandons the bucket.
    pub fn of_listing(dir: String, hour: Timestamp, listing: Result<Vec<String>, GoesArchError>) -> (download:
        Option<BucketDownload>)
        ensures
            download is Some <==> listing is Ok,
            download matches Some(d) ==> d@ == (DownloadView {
                dir: dir@,
                hour: hour@,
                names: listing->Ok_0.deep_view(),
                next: 0,
            }),
    {
        match listing {
            Ok(names) => Some(BucketDownload { dir, hour, names, next: 0 }),
            Err(_) => None,
        }
    }

    /// Lists the remote files of the bucket's hour and starts on them.
    /// Whatever the remote answers, a download that starts is at the first
    /// name of this bucket.
    pub fn begin<RA: RemoteArchive>(
        remote: &RA,
        sat: Satellite,
        prod: Product,
        dir: String,
        hour: Timestamp,
    ) -> (download: Option<BucketDownload>)
        ensures
            download matches Some(d) ==> d@.dir == dir@ && d@.hour == hour@ && d@.next == 0,
    {
        let listing: Result<Vec<String>, GoesArchError> = remote.retrieve_remote_filenames(
            sat,
            prod,
            hour,
        );
        BucketDownload::of_listing(dir, hour, listing)
    }

    /// The local path of the name that is next in line, for the caller to
    /// look up on disk; `None` when all names are dealt with.
    pub fn pending_path(&self) -> (path: Option<String>)
        ensures
            path is Some <==> !self@.is_done(),
            path matches Some(p) ==> p@ == self@.pending_path(),
    {
        if self.next < self.names.len() {
            Some(join(self.dir.as_str(), self.names[self.next].as_str()))
        } else {
            None
        }
    }

    /// Records what became of the name next in line and returns the job to
    /// emit for it.
    pub fn resolve(&mut self, outcome: FileOutcome) -> (job: Option<PipelineJob>)
        ensures
            old(self)@.is_done() ==> final(self)@ == old(self)@ && job is None,
            !old(self)@.is_done() ==> final(self)@ == old(self)@.advanced() && job_view(job)
                == file_request(old(self)@.pending_path(), outcome@),
    {
        if self.next >= self.names.len() {
            return None;
        }
        let path: String = join(self.dir.as_str(), self.names[self.next].as_str());
        self.next = self.next + 1;
        file_job(path, outcome)
    }

    /// Deals with the name next in line: a file that is `present` on disk
    /// is passed on as it is, a missing one is fetched from the remote.
    /// Whatever the remote answers, the download moves on by one name, and
    /// the job, if any, concerns that name's local path.
    pub fn step<RA: RemoteArchive>(
        &mut self,
        remote: &RA,
        sat: Satellite,
        prod: Product,
        present: bool,
    ) -> (job: Option<PipelineJob>)
        ensures
            old(self)@.is_done() ==> final(self)@ == old(self)@ && job is None,
            !old(self)@.is_done() ==> final(self)@ == old(self)@.advanced(),
            !old(self)@.is_done() && present ==> job_view(job) == Some(
                JobView::PathReady { path: old(self)@.pending_path() },
            ),
            !old(self)@.is_done() && !present ==> job is None || (job matches Some(
                PipelineJob::SaveRequest { path, .. },
            ) && path@ == old(self)@.pending_path()),
    {
        if self.next >= self.names.len() {
            return None;
        }
        let outcome: FileOutcome = if present {
            FileOutcome::AlreadyLocal
        } else {
            match remote.retrieve_remote_file(
                sat,
                prod,
                self.hour,
                self.names[self.next].as_str(),
            ) {
                Ok(bytes) => FileOutcome::Fetched { bytes },
                Err(_) => FileOutcome::FetchFailed,
            }
        };
        self.resolve(outcome)
    }

    /// The marker request that closes the bucket when the clock reads
    /// `now`.
    pub fn completion_at(&self, now: Timestamp) -> (job: Option<PipelineJob>)
        ensures
            job_view(job) == self@.completion(now@),
    {
        if self.next >= self.names.len() && self.hour.is_stale(&now) {
            let stamp: String = now.text();
            Some(marker_job(self.dir.as_str(), stamp.as_str()))
        } else {
            None
        }
    }

    /// The marker request that closes the bucket, by the system clock.
    /// Whatever the clock says, a marker is requested only when all names
    /// are dealt with and only for an hour that is stale at the instant
    /// that stamps it.
    pub fn completion(&self) -> (job: Option<PipelineJob>)
        ensures
            job matches Some(j) ==> exists|now: int|
                self@.completion(now) == Some(j@),
    {
        match Timestamp::now() {
            Some(now) => self.completion_at(now),
            None => None,
        }
    }
}

} // verus!
