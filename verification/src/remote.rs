//! The remote object store, as far as the mirror needs it.

use crate::error::GoesArchError;
use crate::product::Product;
use crate::satellite::Satellite;
use crate::timestamp::Timestamp;
use vstd::prelude::*;

verus! {

/// A remote archive of hourly buckets. Both operations are scoped to one
/// hour bucket and must be safe to call from several workers at once, each
/// on its own clone.
///
/// Nothing is assumed of what an implementation returns: every caller in
/// this library is verified for all outcomes.
pub trait RemoteArchive: Clone + Send {
    /// Opens a connection to the remote archive.
    fn connect() -> Result<Self, GoesArchError> where Self: Sized;

    /// The names of the files the remote holds for one hour.
    fn retrieve_remote_filenames(
        &self,
        sat: Satellite,
        prod: Product,
        valid_hour: Timestamp,
    ) -> Result<Vec<String>, GoesArchError>;

    /// The contents of one remote file of that hour.
    fn retrieve_remote_file(
        &self,
        sat: Satellite,
        prod: Product,
        valid_hour: Timestamp,
        remote_path: &str,
    ) -> Result<Vec<u8>, GoesArchError>;
}

} // verus!
