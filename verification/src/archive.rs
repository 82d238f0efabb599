//! The local archive and the walk over the hour buckets of a requested
//! range.
//!
//! The archive does no I/O of its own. [`Archive::retrieve_paths`] checks
//! the range and returns a [`Retrieval`], which yields the range's buckets
//! from the newest to the oldest; the caller looks at each bucket's
//! directory and routes it with [`crate::bucket::route_bucket`].

use crate::error::GoesArchError;
use crate::path::{bucket_dir, bucket_directory};
use crate::product::Product;
use crate::range::{
    effective_start, hours_back, invalid_range_message, lemma_hours_back_step, range_is_valid,
    validate_dates,
};
use crate::remote::RemoteArchive;
use crate::satellite::Satellite;
use crate::timestamp::{civil_hour, civil_ordinal, civil_year, Timestamp};
use vstd::prelude::*;

verus! {

/// The directory of the bucket that holds the instant `hour` of a satellite
/// and product under `root`.
pub open spec fn bucket_path(root: Seq<char>, sat: Satellite, prod: Product, hour: int) -> Seq<char> {
    bucket_dir(
        root,
        sat.token(),
        prod.token(),
        civil_year(hour),
        civil_ordinal(hour) as nat,
        civil_hour(hour) as nat,
    )
}

/// Writes the directory of the bucket that holds the instant `hour`.
pub fn build_bucket_path(root: &str, sat: Satellite, prod: Product, hour: Timestamp) -> (path: String)
    ensures
        path@ == bucket_path(root@, sat, prod, hour@),
{
    bucket_directory(
        root,
        sat.remote_token(),
        prod.remote_token(),
        hour.year(),
        hour.ordinal(),
        hour.hour(),
    )
}

/// A local mirror rooted at a directory, with the remote it mirrors.
pub struct Archive<T: RemoteArchive> {
    root: String,
    remote: T,
}

/// One hour bucket of a retrieval.
#[derive(Clone, Debug)]
pub struct Bucket {
    /// The bucket's local directory.
    pub dir: String,
    /// The instant of the range that the bucket was derived from.
    pub hour: Timestamp,
}

/// The walk over the buckets of a validated range, newest first.
#[derive(Debug)]
pub struct Retrieval {
    root: String,
    sat: Satellite,
    prod: Product,
    start: Timestamp,
    cursor: Option<Timestamp>,
}

/// The mathematical content of a [`Retrieval`].
pub struct RetrievalView {
    /// The root directory of the archive.
    pub root: Seq<char>,
    /// The satellite whose data is retrieved.
    pub sat: Satellite,
    /// The product that is retrieved.
    pub prod: Product,
    /// The hours still to be visited, next first.
    pub hours: Seq<int>,
}

impl View for Retrieval {
    type V = RetrievalView;

    closed spec fn view(&self) -> RetrievalView {
        RetrievalView {
            root: self.root@,
            sat: self.sat,
            prod: self.prod,
            hours: match self.cursor {
                Some(hour) => hours_back(self.start@, hour@),
                None => Seq::empty(),
            },
        }
    }
}

impl Retrieval {
    /// The satellite whose data is retrieved.
    pub fn satellite(&self) -> (sat: Satellite)
        ensures
            sat == self@.sat,
    {
        self.sat
    }

    /// The product that is retrieved.
    pub fn product(&self) -> (prod: Product)
        ensures
            prod == self@.prod,
    {
        self.prod
    }

    /// The next bucket of the range, or `None` when every hour has been
    /// visited.
    pub fn next_bucket(&mut self) -> (bucket: Option<Bucket>)
        ensures
            old(self)@.hours.len() == 0 ==> bucket is None && final(self)@ == old(self)@,
            old(self)@.hours.len() > 0 ==> bucket is Some && final(self)@ == (RetrievalView {
                hours: old(self)@.hours.skip(1),
                ..old(self)@
            }),
            bucket matches Some(b) ==> b.hour@ == old(self)@.hours[0] && b.dir@ == bucket_path(
                old(self)@.root,
                old(self)@.sat,
                old(self)@.prod,
                old(self)@.hours[0],
            ),
    {
        let hour: Timestamp = match self.cursor {
            Some(hour) => hour,
            None => {
                return None;
            },
        };
        if hour.is_before(&self.start) {
            return None;
        }
        proof {
            lemma_hours_back_step(self.start@, hour@);
        }
        self.cursor = hour.hours_before(1);
        Some(Bucket { dir: build_bucket_path(self.root.as_str(), self.sat, self.prod, hour), hour })
    }
}

impl<RA: RemoteArchive> Archive<RA> {
    /// The root directory of the archive.
    pub closed spec fn root_path(&self) -> Seq<char> {
        self.root@
    }

    /// The remote that the archive mirrors.
    pub closed spec fn remote_archive(&self) -> RA {
        self.remote
    }

    /// An archive rooted at `root_path` that mirrors `remote`.
    pub fn connect(root_path: &str, remote: RA) -> (archive: Self)
        ensures
            archive.root_path() == root_path@,
            archive.remote_archive() == remote,
    {
        Archive { root: String::from_str(root_path), remote }
    }

    /// The root directory of the archive.
    pub fn root(&self) -> (root: &str)
        ensures
            root@ == self.root_path(),
    {
        self.root.as_str()
    }

    /// The remote that the archive mirrors.
    pub fn remote(&self) -> (remote: &RA)
        ensures
            *remote == self.remote_archive(),
    {
        &self.remote
    }

    /// The local directory of the bucket that holds the instant
    /// `valid_time_to_the_hour`.
    pub fn build_path(&self, sat: Satellite, prod: Product, valid_time_to_the_hour: Timestamp) -> (path:
        String)
        ensures
            path@ == bucket_path(self.root_path(), sat, prod, valid_time_to_the_hour@),
    {
        build_bucket_path(self.root.as_str(), sat, prod, valid_time_to_the_hour)
    }

    /// Starts the retrieval of a range: validates it against the
    /// satellite's operational epoch and returns the walk over its hours,
    /// from `end` back to the (possibly raised) start. A range that ends
    /// before its start, or before the operational epoch, is rejected
    /// before any bucket is visited.
    pub fn retrieve_paths(&self, sat: Satellite, prod: Product, start: Timestamp, end: Timestamp) -> (walk:
        Result<Retrieval, GoesArchError>)
        ensures
            walk is Ok <==> range_is_valid(start@, end@, sat.operational_epoch(prod)),
            walk matches Ok(w) ==> w@ == (RetrievalView {
                root: self.root_path(),
                sat,
                prod,
                hours: hours_back(effective_start(start@, sat.operational_epoch(prod)), end@),
            }),
            walk matches Err(err) ==> err@ == invalid_range_message(),
    {
        match validate_dates(sat, prod, start, end) {
            Ok((from, to)) => Ok(
                Retrieval { root: self.root.clone(), sat, prod, start: from, cursor: Some(to) },
            ),
            Err(err) => Err(err),
        }
    }
}

} // verus!
