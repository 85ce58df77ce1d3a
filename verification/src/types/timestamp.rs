//! Points in time, as precise as they were written.

use vstd::prelude::*;
use crate::types::decimal::Decimal;

verus! {

/// How much of a timestamp is given.
#[derive(Debug, Clone, Copy, PartialEq, Eq, Structural, Hash)]
pub enum Precision {
    Year,
    Month,
    Day,
    HourAndMinute,
    Second,
}

impl Precision {
    /// The number of fields after the year that a timestamp of this
    /// precision holds.
    pub open spec fn spec_rank(&self) -> u8 {
        match self {
            Precision::Year => 0,
            Precision::Month => 1,
            Precision::Day => 2,
            Precision::HourAndMinute => 4,
            Precision::Second => 5,
        }
    }

    /// Returns the number of fields after the year that a timestamp of this
    /// precision holds.
    #[verifier::when_used_as_spec(spec_rank)]
    pub fn rank(&self) -> (rank: u8)
        ensures
            rank == self.spec_rank(),
    {
        match self {
            Precision::Year => 0,
            Precision::Month => 1,
            Precision::Day => 2,
            Precision::HourAndMinute => 4,
            Precision::Second => 5,
        }
    }
}

/// A timestamp as the binary encoding holds it: the fields of a moment in
/// UTC, and the offset in minutes of the local time it was written in. Fields
/// beyond the precision are 1 for month and day, and 0 for the others.
///
/// Whether the fields name a day of the calendar is not this type's concern.
#[derive(Debug, Clone, PartialEq, Eq, Hash)]
pub struct Timestamp {
    pub precision: Precision,
    /// The offset from UTC in minutes; `None` when it is unknown.
    pub offset_minutes: Option<i32>,
    pub year: u32,
    pub month: u32,
    pub day: u32,
    pub hour: u32,
    pub minute: u32,
    pub second: u32,
    /// The fraction of a second, between 0 and 1.
    pub fractional_seconds: Option<Decimal>,
}

impl Timestamp {
    /// Fields beyond the precision have their default values, the fraction
    /// belongs to a timestamp with seconds, and is well-formed.
    pub open spec fn wf(&self) -> bool {
        &&& self.precision.spec_rank() < 1 ==> self.month == 1
        &&& self.precision.spec_rank() < 2 ==> self.day == 1
        &&& self.precision.spec_rank() < 4 ==> self.hour == 0 && self.minute == 0
        &&& self.precision.spec_rank() < 5 ==> self.second == 0 && self.fractional_seconds is None
        &&& self.fractional_seconds is Some ==> self.fractional_seconds->Some_0.wf()
    }

    /// Reports whether the timestamp is well-formed: whether the fields
    /// beyond its precision have their default values, and the fraction is a
    /// well-formed decimal.
    pub fn is_well_formed(&self) -> (b: bool)
        ensures
            b == self.wf(),
    {
        let rank = self.precision.rank();
        if rank < 1 && self.month != 1 {
            return false;
        }
        if rank < 2 && self.day != 1 {
            return false;
        }
        if rank < 4 && (self.hour != 0 || self.minute != 0) {
            return false;
        }
        if rank < 5 && self.second != 0 {
            return false;
        }
        match &self.fractional_seconds {
            Some(fraction) => rank >= 5 && fraction.is_well_formed(),
            None => true,
        }
    }

    /// A timestamp that gives a day, with unknown offset.
    pub fn with_ymd(year: u32, month: u32, day: u32) -> (t: Timestamp)
        ensures
            t.wf(),
            t.precision == Precision::Day,
            t.offset_minutes is None,
            t.year == year && t.month == month && t.day == day,
            t.hour == 0 && t.minute == 0 && t.second == 0,
            t.fractional_seconds is None,
    {
        Timestamp {
            precision: Precision::Day,
            offset_minutes: None,
            year,
            month,
            day,
            hour: 0,
            minute: 0,
            second: 0,
            fractional_seconds: None,
        }
    }

    /// A timestamp that gives a year, with unknown offset.
    pub fn with_year(year: u32) -> (t: Timestamp)
        ensures
            t.wf(),
            t.precision == Precision::Year,
            t.offset_minutes is None,
            t.year == year && t.month == 1 && t.day == 1,
            t.hour == 0 && t.minute == 0 && t.second == 0,
            t.fractional_seconds is None,
    {
        Timestamp {
            precision: Precision::Year,
            offset_minutes: None,
            year,
            month: 1,
            day: 1,
            hour: 0,
            minute: 0,
            second: 0,
            fractional_seconds: None,
        }
    }

    /// A timestamp that gives every field down to the second, at the given
    /// offset.
    pub fn with_ymd_hms(
        year: u32,
        month: u32,
        day: u32,
        hour: u32,
        minute: u32,
        second: u32,
        offset_minutes: Option<i32>,
    ) -> (t: Timestamp)
        ensures
            t.wf(),
            t.precision == Precision::Second,
            t.offset_minutes == offset_minutes,
            t.year == year && t.month == month && t.day == day,
            t.hour == hour && t.minute == minute && t.second == second,
            t.fractional_seconds is None,
    {
        Timestamp {
            precision: Precision::Second,
            offset_minutes,
            year,
            month,
            day,
            hour,
            minute,
            second,
            fractional_seconds: None,
        }
    }
}

} // verus!
