//! The requested range of hours: its validation against a satellite's
//! operational epoch, and the hours it contains.

use crate::error::GoesArchError;
use crate::product::Product;
use crate::satellite::Satellite;
use crate::timestamp::{hours_earlier, Timestamp, SECONDS_PER_HOUR};
use vstd::prelude::*;

verus! {

/// The start of a range after clamping to the operational epoch.
pub open spec fn effective_start(start: int, epoch: int) -> int {
    if start < epoch {
        epoch
    } else {
        start
    }
}

/// Whether a requested range is acceptable: it does not end before it
/// starts, nor before the operational epoch.
pub open spec fn range_is_valid(start: int, end: int, epoch: int) -> bool {
    start <= end && epoch <= end
}

/// The hours of a range, newest first: `end`, one hour before `end`, and so
/// on for as long as the hour is not before `start`.
pub open spec fn hours_back(start: int, end: int) -> Seq<int> {
    if end < start {
        Seq::empty()
    } else {
        Seq::new(
            ((end - start) / (SECONDS_PER_HOUR as int) + 1) as nat,
            |k: int| hours_earlier(end, k),
        )
    }
}

/// The message of the error that rejects a range.
pub open spec fn invalid_range_message() -> Seq<char> {
    "Invalid satellite dates."@
}

/// Checks a requested range against the first hour for which `sat`
/// delivered `prod`. A start before that hour is raised to it; a range that
/// ends before its (raised) start is rejected.
pub fn validate_dates(sat: Satellite, prod: Product, start: Timestamp, end: Timestamp) -> (range:
    Result<(Timestamp, Timestamp), GoesArchError>)
    ensures
        range is Ok <==> range_is_valid(start@, end@, sat.operational_epoch(prod)),
        range matches Ok((from, to)) ==> from@ == effective_start(
            start@,
            sat.operational_epoch(prod),
        ) && to@ == end@,
        range matches Err(err) ==> err@ == invalid_range_message(),
{
    if end.is_before(&start) {
        return Err(GoesArchError::new("Invalid satellite dates."));
    }
    let earliest: Timestamp = sat.earliest_operational_date(prod);
    let valid_start: Timestamp = if start.is_before(&earliest) {
        earliest
    } else {
        start
    };
    if end.is_before(&valid_start) {
        Err(GoesArchError::new("Invalid satellite dates."))
    } else {
        Ok((valid_start, end))
    }
}

/// Every hour of a range lies inside it, and the first is its end.
pub proof fn lemma_hours_back_within(start: int, end: int, k: int)
    requires
        0 <= k < hours_back(start, end).len(),
    ensures
        start <= hours_back(start, end)[k] <= end,
        hours_back(start, end)[k] == hours_earlier(end, k),
        hours_back(start, end)[0] == end,
{
}

/// The hours of a range descend in steps of one hour, so that no hour is
/// visited twice.
pub proof fn lemma_hours_back_descends(start: int, end: int, j: int, k: int)
    requires
        0 <= j < k < hours_back(start, end).len(),
    ensures
        hours_back(start, end)[j] - hours_back(start, end)[k] == SECONDS_PER_HOUR * (k - j),
        hours_back(start, end)[k] < hours_back(start, end)[j],
{
}

/// A range is walked if and only if it is valid, and a valid range is
/// walked from its end back to its start or to the operational epoch,
/// whichever is later: no hour before the epoch is ever visited.
pub proof fn lemma_valid_range_is_clamped(start: int, end: int, epoch: int, k: int)
    requires
        range_is_valid(start, end, epoch),
        0 <= k < hours_back(effective_start(start, epoch), end).len(),
    ensures
        hours_back(effective_start(start, epoch), end).len() >= 1,
        effective_start(start, epoch) == if start < epoch {
            epoch
        } else {
            start
        },
        epoch <= hours_back(effective_start(start, epoch), end)[k],
        start <= hours_back(effective_start(start, epoch), end)[k] <= end,
{
}

/// Dropping the newest hour of a range leaves the range that ends one hour
/// earlier.
pub proof fn lemma_hours_back_step(start: int, end: int)
    requires
        start <= end,
    ensures
        hours_back(start, end).len() > 0,
        hours_back(start, end)[0] == end,
        hours_back(start, end).skip(1) == hours_back(start, hours_earlier(end, 1)),
{
}

} // verus!
