//! The satellites whose data the archive mirrors.

use crate::product::Product;
use crate::timestamp::Timestamp;
use vstd::prelude::*;

verus! {

/// A geostationary satellite of the GOES-R series.
#[derive(Clone, Copy, Debug, PartialEq, Eq, Structural)]
pub enum Satellite {
    /// GOES-16, the first of the series.
    GOES16,
    /// GOES-17.
    GOES17,
    /// GOES-18.
    GOES18,
}

impl Satellite {
    /// The name of the satellite in local paths.
    pub open spec fn token(self) -> Seq<char> {
        match self {
            Satellite::GOES16 => "G16"@,
            Satellite::GOES17 => "G17"@,
            Satellite::GOES18 => "G18"@,
        }
    }

    /// Seconds since the epoch of the first hour for which the satellite
    /// delivered `product`: 12:00 on 2021-05-17 for the mesoscale product of
    /// GOES-16 and GOES-17, and otherwise 12:00 on 2017-12-18 for GOES-16,
    /// on 2019-02-12 for GOES-17 and on 2023-01-17 for GOES-18.
    pub open spec fn operational_epoch(self, product: Product) -> int {
        match (self, product) {
            (Satellite::GOES16, Product::FDCM) => 1_621_252_800,
            (Satellite::GOES17, Product::FDCM) => 1_621_252_800,
            (Satellite::GOES16, _) => 1_513_598_400,
            (Satellite::GOES17, _) => 1_549_972_800,
            (Satellite::GOES18, _) => 1_673_956_800,
        }
    }

    /// The name of the satellite in local paths.
    pub fn remote_token(&self) -> (token: &'static str)
        ensures
            token@ == self.token(),
    {
        match *self {
            Satellite::GOES16 => "G16",
            Satellite::GOES17 => "G17",
            Satellite::GOES18 => "G18",
        }
    }

    /// The first hour for which the satellite delivered `prod`.
    pub fn earliest_operational_date(&self, prod: Product) -> (earliest: Timestamp)
        ensures
            earliest@ == self.operational_epoch(prod),
    {
        let secs: i64 = match (*self, prod) {
            (Satellite::GOES16, Product::FDCM) => 1_621_252_800,
            (Satellite::GOES17, Product::FDCM) => 1_621_252_800,
            (Satellite::GOES16, _) => 1_513_598_400,
            (Satellite::GOES17, _) => 1_549_972_800,
            (Satellite::GOES18, _) => 1_673_956_800,
        };
        Timestamp::at(secs)
    }
}

} // verus!
