//! The core of a resumable local mirror of hourly satellite data buckets.
//!
//! A remote object store holds, for each satellite, product and hour, a
//! handful of data files. This library mirrors them into a local tree of
//! the shape `root/<satellite>/<product>/<year>/<day-of-year>/<hour>/` and
//! treats that tree as a cache: an hour bucket that is complete is never
//! fetched again.
//!
//! The library does no I/O and starts no thread. It holds the decisions of
//! each stage of the mirroring pipeline, and the caller carries them out:
//!
//! * the producer validates the requested range and walks its hours from
//!   the newest to the oldest ([`archive`], [`range`]), looks at each
//!   bucket's directory and routes the bucket ([`bucket`]);
//! * a download worker lists the remote files of an incomplete bucket and
//!   fetches those that are missing ([`download`], [`remote`], [`noaa`]);
//! * the save stage writes files and reports what it wrote ([`save`]);
//! * the accumulator collects the paths of the result ([`accumulate`]).
//!
//! [`completeness`] states what holds of a bucket across visits: a marked
//! bucket stays marked, a complete bucket is never downloaded again, and
//! marking waits until the hour is a day old.

pub mod accumulate;
pub mod archive;
pub mod bucket;
pub mod completeness;
pub mod download;
pub mod error;
pub mod jobs;
pub mod listing;
pub mod noaa;
pub mod path;
pub mod product;
pub mod range;
pub mod remote;
pub mod satellite;
pub mod save;
pub mod timestamp;

pub use crate::archive::Archive;
pub use crate::error::GoesArchError;
pub use crate::product::Product;
pub use crate::remote::RemoteArchive;
pub use crate::satellite::Satellite;
