//! The producer's decision for one hour bucket: is it complete, does its
//! directory have to be created, is it to be marked, and which stage gets it
//! next.

use crate::jobs::{job_view, JobView, PipelineJob};
use crate::listing::{
    contains_marker, count_data_files, data_count, has_marker, is_complete, DirEntry, EntryView,
};
use crate::path::{join, joined, marker_file_name, marker_name};
use crate::product::Product;
use crate::timestamp::{civil_text, is_stale_at, Timestamp};
use vstd::prelude::*;
use vstd::string::*;
use vstd::utf8::encode_utf8;

verus! {

/// What the producer does with one bucket.
#[derive(Clone, Debug)]
pub struct Routing {
    /// Whether the bucket's directory is missing and has to be created.
    pub create_dir: bool,
    /// The save request that marks the bucket complete, if it is to be
    /// marked on this visit.
    pub marker: Option<PipelineJob>,
    /// The job that hands the bucket on: its directory for the accumulator
    /// where it is complete, the bucket for the download workers where it is
    /// not.
    pub forward: PipelineJob,
}

/// The mathematical content of a [`Routing`].
pub struct RoutingView {
    /// See [`Routing::create_dir`].
    pub create_dir: bool,
    /// See [`Routing::marker`].
    pub marker: Option<JobView>,
    /// See [`Routing::forward`].
    pub forward: JobView,
}

impl View for Routing {
    type V = RoutingView;

    open spec fn view(&self) -> RoutingView {
        RoutingView {
            create_dir: self.create_dir,
            marker: job_view(self.marker),
            forward: self.forward@,
        }
    }
}

/// The view of an optional listing.
pub open spec fn listing_view(listing: Option<&Vec<DirEntry>>) -> Option<Seq<EntryView>> {
    match listing {
        Some(entries) => Some(entries.deep_view()),
        None => None,
    }
}

/// The bytes of a marker file whose time stamp reads `stamp`: that text and
/// a line feed.
pub open spec fn marker_content(stamp: Seq<char>) -> Seq<u8> {
    encode_utf8(stamp + seq!['\n'])
}

/// The save request that writes the marker of the bucket directory `dir`
/// with the time stamp `stamp`.
pub open spec fn marker_request(dir: Seq<char>, stamp: Seq<char>) -> JobView {
    JobView::SaveRequest { path: joined(dir, marker_name()), bytes: marker_content(stamp) }
}

/// Whether a bucket found with this listing is to be marked complete: it
/// is not marked yet, holds all the files of its hour, and the hour is older
/// than the staleness threshold.
pub open spec fn should_mark(listing: Seq<EntryView>, product: Product, hour: int, now: int) -> bool {
    &&& !has_marker(listing)
    &&& data_count(listing) >= product.files_per_hour()
    &&& is_stale_at(hour, now)
}

/// The job that hands a bucket on: complete buckets go to the accumulator
/// as a directory, all others to the download workers.
pub open spec fn forward_of(
    dir: Seq<char>,
    hour: int,
    listing: Option<Seq<EntryView>>,
    product: Product,
) -> JobView {
    match listing {
        Some(entries) if is_complete(entries, product) => JobView::PathReady { path: dir },
        _ => JobView::BucketToCheck { dir, hour },
    }
}

/// The producer's decision for the bucket of `hour` in `dir`, found with
/// `listing` (`None` where the directory does not exist) when the clock
/// reads `now`.
pub open spec fn routing_of(
    dir: Seq<char>,
    hour: int,
    listing: Option<Seq<EntryView>>,
    product: Product,
    now: int,
) -> RoutingView {
    RoutingView {
        create_dir: listing is None,
        marker: match listing {
            Some(entries) if should_mark(entries, product, hour, now) => Some(
                marker_request(dir, civil_text(now)),
            ),
            _ => None,
        },
        forward: forward_of(dir, hour, listing, product),
    }
}

/// The save request that writes the marker of the bucket directory `dir`
/// with the time stamp `stamp`.
pub fn marker_job(dir: &str, stamp: &str) -> (job: PipelineJob)
    ensures
        job@ == marker_request(dir@, stamp@),
{
    proof {
        reveal_strlit("\n");
    }
    let mut line: String = String::from_str(stamp);
    line.append("\n");
    assert(line@ =~= stamp@ + seq!['\n']);
    let bytes: Vec<u8> = line.as_str().as_bytes_vec();
    PipelineJob::SaveRequest { path: join(dir, marker_file_name()), bytes }
}

/// Whether a bucket found with `listing` is complete for `prod`.
pub fn bucket_is_complete(listing: &Vec<DirEntry>, prod: Product) -> (complete: bool)
    ensures
        complete == is_complete(listing.deep_view(), prod),
{
    if contains_marker(listing) {
        return true;
    }
    let expected: i32 = prod.max_num_per_hour();
    count_data_files(listing) >= expected as usize
}

/// The job that hands a bucket on.
fn forward_job(dir: String, hour: Timestamp, complete: bool) -> (job: PipelineJob)
    ensures
        job@ == if complete {
            JobView::PathReady { path: dir@ }
        } else {
            JobView::BucketToCheck { dir: dir@, hour: hour@ }
        },
{
    if complete {
        PipelineJob::PathReady { path: dir }
    } else {
        PipelineJob::BucketToCheck { dir, hour }
    }
}

/// Decides what to do with the bucket of `hour` in `dir`, given its
/// directory listing (`None` where the directory does not exist) and the
/// clock's reading.
pub fn route_bucket_at(
    dir: String,
    hour: Timestamp,
    listing: Option<&Vec<DirEntry>>,
    prod: Product,
    now: Timestamp,
) -> (routing: Routing)
    ensures
        routing@ == routing_of(dir@, hour@, listing_view(listing), prod, now@),
{
    match listing {
        None => Routing { create_dir: true, marker: None, forward: forward_job(dir, hour, false) },
        Some(entries) => {
            let complete: bool = bucket_is_complete(entries, prod);
            let mark: bool = complete && !contains_marker(entries) && hour.is_stale(&now);
            let marker: Option<PipelineJob> = if mark {
                let stamp: String = now.text();
                Some(marker_job(dir.as_str(), stamp.as_str()))
            } else {
                None
            };
            Routing { create_dir: false, marker, forward: forward_job(dir, hour, complete) }
        },
    }
}

/// Decides what to do with the bucket of `hour` in `dir`, given its
/// directory listing (`None` where the directory does not exist). The
/// clock is read only where the bucket could be marked; whatever it says,
/// the bucket is handed on as its listing demands, and a marker is requested
/// only for a bucket that is unmarked and holds all the files of its hour.
pub fn route_bucket(dir: String, hour: Timestamp, listing: Option<&Vec<DirEntry>>, prod: Product) -> (routing:
    Routing)
    ensures
        routing.create_dir == (listing is None),
        routing.forward@ == forward_of(dir@, hour@, listing_view(listing), prod),
        routing.marker matches Some(job) ==> listing matches Some(entries) && exists|now: int|
            should_mark(entries.deep_view(), prod, hour@, now) && job@ == marker_request(
                dir@,
                civil_text(now),
            ),
{
    let markable: bool = match listing {
        Some(entries) => bucket_is_complete(entries, prod) && !contains_marker(entries),
        None => false,
    };
    if markable {
        if let Some(now) = Timestamp::now() {
            return route_bucket_at(dir, hour, listing, prod, now);
        }
    }
    let complete: bool = match listing {
        Some(entries) => bucket_is_complete(entries, prod),
        None => false,
    };
    Routing { create_dir: listing.is_none(), marker: None, forward: forward_job(dir, hour, complete) }
}

} // verus!
