//! The timestamp carried by a run-folder name, and its order.

use vstd::prelude::*;

verus! {

/// A calendar date and time of day without a time zone.
///
/// A leap second is held as `second == 59` together with a `nanosecond` of at least
/// 1_000_000_000, so that it orders after every other instant of the same minute.
#[derive(Clone, Copy, Debug, PartialEq, Eq, Structural)]
pub struct Timestamp {
    pub year: i32,
    pub month: u32,
    pub day: u32,
    pub hour: u32,
    pub minute: u32,
    pub second: u32,
    pub nanosecond: u32,
}

impl Timestamp {
    /// The fields lie in the ranges of a calendar date and a time of day.
    pub open spec fn in_range(self) -> bool {
        &&& 1 <= self.month <= 12
        &&& 1 <= self.day <= 31
        &&& self.hour <= 23
        &&& self.minute <= 59
        &&& self.second <= 59
        &&& self.nanosecond <= 1_999_999_999
    }

    /// `self` is strictly earlier than `other`: the fields compared in order, from the
    /// year down to the nanosecond.
    pub open spec fn precedes(self, other: Timestamp) -> bool {
        ||| self.year < other.year
        ||| self.year == other.year && self.month < other.month
        ||| self.year == other.year && self.month == other.month && self.day < other.day
        ||| self.year == other.year && self.month == other.month && self.day == other.day
            && self.hour < other.hour
        ||| self.year == other.year && self.month == other.month && self.day == other.day
            && self.hour == other.hour && self.minute < other.minute
        ||| self.year == other.year && self.month == other.month && self.day == other.day
            && self.hour == other.hour && self.minute == other.minute && self.second
            < other.second
        ||| self.year == other.year && self.month == other.month && self.day == other.day
            && self.hour == other.hour && self.minute == other.minute && self.second
            == other.second && self.nanosecond < other.nanosecond
    }

    /// Builds a timestamp of a whole second from its calendar fields.
    pub fn new(year: i32, month: u32, day: u32, hour: u32, minute: u32, second: u32) -> (t:
        Timestamp)
        ensures
            t == (Timestamp { year, month, day, hour, minute, second, nanosecond: 0 }),
    {
        Timestamp { year, month, day, hour, minute, second, nanosecond: 0 }
    }

    /// Tells whether `self` is strictly earlier than `other`.
    pub fn is_before(&self, other: &Timestamp) -> (earlier: bool)
        ensures
            earlier == self.precedes(*other),
    {
        if self.year != other.year {
            self.year < other.year
        } else if self.month != other.month {
            self.month < other.month
        } else if self.day != other.day {
            self.day < other.day
        } else if self.hour != other.hour {
            self.hour < other.hour
        } else if self.minute != other.minute {
            self.minute < other.minute
        } else if self.second != other.second {
            self.second < other.second
        } else {
            self.nanosecond < other.nanosecond
        }
    }

    /// Tells whether `self` is strictly later than `other`.
    pub fn is_after(&self, other: &Timestamp) -> (later: bool)
        ensures
            later == other.precedes(*self),
    {
        other.is_before(self)
    }
}

/// No timestamp precedes itself.
pub proof fn precedes_is_irreflexive(a: Timestamp)
    ensures
        !a.precedes(a),
{
}

/// If `a` precedes `b` and `b` precedes `c`, then `a` precedes `c`.
pub proof fn precedes_is_transitive(a: Timestamp, b: Timestamp, c: Timestamp)
    requires
        a.precedes(b),
        b.precedes(c),
    ensures
        a.precedes(c),
{
}

/// Of two timestamps exactly one holds: the first precedes the second, they are
/// equal, or the second precedes the first.
pub proof fn precedes_is_total(a: Timestamp, b: Timestamp)
    ensures
        a.precedes(b) || a == b || b.precedes(a),
        !(a.precedes(b) && a == b),
        !(a.precedes(b) && b.precedes(a)),
        !(a == b && b.precedes(a)),
{
}

} // verus!
