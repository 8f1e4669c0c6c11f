//! Points in time, bucket widths and the range a query covers.
use vstd::prelude::*;

verus! {

/// A point in time, as whole seconds since 1970-01-01 00:00:00 UTC.
#[derive(Clone, Copy, Debug, PartialEq, Eq, Structural, Hash)]
pub struct Timestamp {
    pub unix_seconds: i64,
}

/// The width of one time bucket.
#[derive(Clone, Copy, Debug, PartialEq, Eq, Structural, Hash)]
pub enum Granularity {
    OneMin,
    FiveMin,
    FifteenMin,
    ThirtyMin,
    OneHour,
    OneDay,
}

impl Granularity {
    pub open spec fn spec_minutes(self) -> nat {
        match self {
            Granularity::OneMin => 1,
            Granularity::FiveMin => 5,
            Granularity::FifteenMin => 15,
            Granularity::ThirtyMin => 30,
            Granularity::OneHour => 60,
            Granularity::OneDay => 1440,
        }
    }

    /// The bucket width in minutes.
    pub fn minutes(&self) -> (r: u64)
        ensures
            r == self.spec_minutes(),
    {
        match self {
            Granularity::OneMin => 1,
            Granularity::FiveMin => 5,
            Granularity::FifteenMin => 15,
            Granularity::ThirtyMin => 30,
            Granularity::OneHour => 60,
            Granularity::OneDay => 1440,
        }
    }
}

/// The span a query covers: `start_time` is included, and so is `end_time`
/// where there is one; without one the span is open to the future.
#[derive(Clone, Copy, Debug, PartialEq, Eq, Structural, Hash)]
pub struct TimeRange {
    pub start_time: Timestamp,
    pub end_time: Option<Timestamp>,
}

} // verus!
