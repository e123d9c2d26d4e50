use vstd::prelude::*;
use crate::status::DutyStatus;

verus! {

/// One interval of a driver's log: a duty status held from one time of the
/// day to another.
///
/// Times are minutes after midnight, so that a day runs from 0 to 1440.
/// The log is expected to hold `0 <= start_minute < end_minute <= 1440`; the
/// chart does not validate it, and a time outside the day is drawn outside the
/// grid.
#[derive(Debug, Clone, PartialEq)]
pub struct Segment {
    pub start_minute: i32,
    pub end_minute: i32,
    pub status: DutyStatus,
    /// Where the status was recorded.
    pub location: String,
    /// A free note on the interval.
    pub note: String,
}

/// Minutes in a day: the end of the chart's time axis.
pub const MINUTES_PER_DAY: i32 = 1440;

} // verus!
