//! The instrument products that the archive mirrors.

use vstd::prelude::*;

verus! {

/// A fire-detection product of the Advanced Baseline Imager.
#[derive(Clone, Copy, Debug, PartialEq, Eq, Structural)]
pub enum Product {
    /// Fire/hot spot characterisation, CONUS sector.
    FDCC,
    /// Fire/hot spot characterisation, mesoscale sector.
    FDCM,
    /// Fire/hot spot characterisation, full disk.
    FDCF,
}

impl Product {
    /// The number of data files the instrument produces in one hour.
    pub open spec fn files_per_hour(self) -> int {
        match self {
            Product::FDCM => 60,
            Product::FDCC => 12,
            Product::FDCF => 6,
        }
    }

    /// The name of the product in remote object keys and local paths.
    pub open spec fn token(self) -> Seq<char> {
        match self {
            Product::FDCC => "ABI-L2-FDCC"@,
            Product::FDCM => "ABI-L2-FDCM"@,
            Product::FDCF => "ABI-L2-FDCF"@,
        }
    }

    /// The name of the product in remote object keys and local paths.
    pub fn remote_token(&self) -> (token: &'static str)
        ensures
            token@ == self.token(),
    {
        match *self {
            Product::FDCC => "ABI-L2-FDCC",
            Product::FDCM => "ABI-L2-FDCM",
            Product::FDCF => "ABI-L2-FDCF",
        }
    }

    /// The number of data files expected in a full hour bucket.
    pub fn max_num_per_hour(&self) -> (count: i32)
        ensures
            count == self.files_per_hour(),
    {
        match *self {
            Product::FDCM => 60,
            Product::FDCC => 12,
            Product::FDCF => 6,
        }
    }
}

} // verus!
