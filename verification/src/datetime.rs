//! Calendar dates and times of day, held as plain numbers.

use vstd::prelude::*;

verus! {

/// A day of the proleptic Gregorian calendar.
#[derive(Clone, Copy, Debug, PartialEq, Eq, Structural)]
pub struct Date {
    pub year: i32,
    /// 1 for January to 12 for December.
    pub month: u32,
    /// The day of the month, from 1.
    pub day: u32,
}

impl Date {
    /// The month and the day lie in the ranges of a calendar.
    pub open spec fn wf(&self) -> bool {
        &&& 1 <= self.month <= 12
        &&& 1 <= self.day <= 31
    }
}

/// A moment in UTC: a day and the time of that day.
#[derive(Clone, Copy, Debug, PartialEq, Eq, Structural)]
pub struct DateTime {
    pub year: i32,
    /// 1 for January to 12 for December.
    pub month: u32,
    /// The day of the month, from 1.
    pub day: u32,
    pub hour: u32,
    pub minute: u32,
    pub second: u32,
    /// Nanoseconds since the whole second; from 1,000,000,000 on, the moment
    /// lies in a leap second that follows `second`.
    pub nanosecond: u32,
}

impl DateTime {
    /// Every field lies in the range of a calendar and a clock.
    pub open spec fn wf(&self) -> bool {
        &&& 1 <= self.month <= 12
        &&& 1 <= self.day <= 31
        &&& self.hour <= 23
        &&& self.minute <= 59
        &&& self.second <= 59
        &&& self.nanosecond <= 1_999_999_999
    }

    /// Whether the moment lies before `other`.
    pub open spec fn precedes(&self, other: DateTime) -> bool {
        ||| self.year < other.year
        ||| self.year == other.year && self.month < other.month
        ||| self.year == other.year && self.month == other.month && self.day < other.day
        ||| self.date() == other.date() && self.hour < other.hour
        ||| self.date() == other.date() && self.hour == other.hour && self.minute < other.minute
        ||| self.date() == other.date() && self.hour == other.hour && self.minute == other.minute
            && self.second < other.second
        ||| self.date() == other.date() && self.hour == other.hour && self.minute == other.minute
            && self.second == other.second && self.nanosecond < other.nanosecond
    }

    /// Whether the moment lies before `other`.
    pub fn is_before(&self, other: &DateTime) -> (before: bool)
        ensures
            before == self.precedes(*other),
    {
        if self.year != other.year {
            self.year < other.year
        } else if self.month != other.month {
            self.month < other.month
        } else if self.day != other.day {
            self.day < other.day
        } else if self.hour != other.hour {
            self.hour < other.hour
        } else if self.minute != other.minute {
            self.minute < other.minute
        } else if self.second != other.second {
            self.second < other.second
        } else {
            self.nanosecond < other.nanosecond
        }
    }

    /// The day on which the moment lies.
    pub open spec fn date(&self) -> Date {
        Date { year: self.year, month: self.month, day: self.day }
    }

    /// The first moment of `date`.
    pub open spec fn midnight(date: Date) -> DateTime {
        DateTime {
            year: date.year,
            month: date.month,
            day: date.day,
            hour: 0,
            minute: 0,
            second: 0,
            nanosecond: 0,
        }
    }

    /// The first moment of `date`.
    pub fn at_midnight(date: Date) -> (moment: DateTime)
        ensures
            moment == Self::midnight(date),
            date.wf() ==> moment.wf(),
    {
        DateTime {
            year: date.year,
            month: date.month,
            day: date.day,
            hour: 0,
            minute: 0,
            second: 0,
            nanosecond: 0,
        }
    }
}

} // verus!
