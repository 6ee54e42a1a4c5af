//! Times of day and absolute timestamps, held as plain numbers.
//!
//! A timestamp is a local date and time together with the offset of that
//! local time from UTC. The date is a day number (day 1 is January 1 of the
//! year 1, a Monday), so that moving by whole days, finding the weekday and
//! comparing two instants are integer arithmetic. Text is read and written by
//! the calendar.

use crate::reminder::calendar::{
    clock_reading, read_clock, read_stamp, stamp_reading, stamp_text, write_stamp,
};
use crate::reminder::model::Weekday;
use crate::reminder::text::{clock_part, clock_text};
use vstd::prelude::*;

verus! {

/// The number of seconds in a day.
pub const SECONDS_PER_DAY: u32 = 86_400;

/// The bound on a count of nanoseconds: a leap second counts up to here.
pub const NANOS_BOUND: u32 = 2_000_000_000;

/// The model of a time of day: seconds since midnight and nanoseconds.
pub struct ClockTime {
    pub secs: int,
    pub nanos: int,
}

impl ClockTime {
    /// Both counts are in range.
    pub open spec fn wf(self) -> bool {
        &&& 0 <= self.secs < SECONDS_PER_DAY
        &&& 0 <= self.nanos < NANOS_BOUND
    }

    /// This time is no earlier in the day than `other`.
    pub open spec fn at_or_after(self, other: ClockTime) -> bool {
        self.secs > other.secs || (self.secs == other.secs && self.nanos >= other.nanos)
    }

    /// This time is later in the day than `other`.
    pub open spec fn after(self, other: ClockTime) -> bool {
        self.secs > other.secs || (self.secs == other.secs && self.nanos > other.nanos)
    }

    /// The time of day that a text of the form `HH:MM:SS` names, with or
    /// without an offset behind it, where the calendar accepts the text.
    pub open spec fn reading(text: Seq<char>) -> Option<ClockTime> {
        match clock_reading(clock_part(text)) {
            Some(v) => Some(ClockTime { secs: v.0, nanos: v.1 }),
            None => None,
        }
    }
}

/// The model of a timestamp: the day number, seconds and nanoseconds of a
/// local date and time, and the offset of that local time in seconds east of
/// UTC.
pub struct Moment {
    pub days: int,
    pub secs: int,
    pub nanos: int,
    pub offset: int,
}

impl Moment {
    /// The moment with the given fields.
    pub open spec fn of(days: int, secs: int, nanos: int, offset: int) -> Moment {
        Moment { days, secs, nanos, offset }
    }

    /// Every field is in range.
    pub open spec fn wf(self) -> bool {
        &&& i32::MIN <= self.days <= i32::MAX
        &&& 0 <= self.secs < SECONDS_PER_DAY
        &&& 0 <= self.nanos < NANOS_BOUND
        &&& -SECONDS_PER_DAY < self.offset < SECONDS_PER_DAY
    }

    /// The local time of day.
    pub open spec fn clock(self) -> ClockTime {
        ClockTime { secs: self.secs, nanos: self.nanos }
    }

    /// The weekday of the local date.
    pub open spec fn weekday(self) -> Weekday {
        Weekday::at((self.days - 1) % 7)
    }

    /// The whole seconds of the instant, counted in UTC from the midnight
    /// before day 1.
    pub open spec fn utc_seconds(self) -> int {
        self.days * SECONDS_PER_DAY + self.secs - self.offset
    }

    /// This instant is `other` or comes before it.
    pub open spec fn at_or_before(self, other: Moment) -> bool {
        self.utc_seconds() < other.utc_seconds() || (self.utc_seconds() == other.utc_seconds()
            && self.nanos <= other.nanos)
    }

    /// The same local time of day and offset, `n` days later.
    pub open spec fn plus_days(self, n: int) -> Moment {
        Moment { days: self.days + n, ..self }
    }

    /// The local time `clock` on the date of this moment, `n` days later,
    /// at the same offset.
    pub open spec fn days_later_at(self, n: int, clock: ClockTime) -> Moment {
        Moment { days: self.days + n, secs: clock.secs, nanos: clock.nanos, offset: self.offset }
    }

    /// The text of this moment in the form `YYYY-MM-DD HH:MM:SS±HH:MM`, where
    /// the calendar can write it.
    pub open spec fn text(self) -> Option<Seq<char>> {
        stamp_text(self.days, self.secs, self.nanos, self.offset)
    }

    /// The moment that the calendar reads from a text of the form
    /// `YYYY-MM-DD HH:MM:SS±HH:MM`, where it accepts the text.
    pub open spec fn reading(text: Seq<char>) -> Option<Moment> {
        match stamp_reading(text) {
            Some(v) => Some(Moment::of(v.0, v.1, v.2, v.3)),
            None => None,
        }
    }

    /// The text of this moment, where the calendar can write it and reads
    /// this very moment back from what it wrote. A moment with a fraction of
    /// a second, or with an offset that is not a whole number of minutes,
    /// has a text but no faithful text.
    pub open spec fn faithful_text(self) -> Option<Seq<char>> {
        match self.text() {
            Some(text) => if Moment::reading(text) == Some(self) {
                Some(text)
            } else {
                None
            },
            None => None,
        }
    }
}

/// A time of day.
#[derive(Clone, Copy, Debug, PartialEq, Eq, Structural)]
pub struct TimeOfDay {
    secs: u32,
    nanos: u32,
}

impl View for TimeOfDay {
    type V = ClockTime;

    closed spec fn view(&self) -> ClockTime {
        ClockTime { secs: self.secs as int, nanos: self.nanos as int }
    }
}

impl TimeOfDay {
    /// What holds of every time of day: its model is in range.
    #[verifier::type_invariant]
    pub open spec fn valid(self) -> bool {
        self@.wf()
    }

    /// The time of day with the given counts, if they are in range.
    pub fn new(secs: u32, nanos: u32) -> (r: Option<TimeOfDay>)
        ensures
            r is Some <==> (ClockTime { secs: secs as int, nanos: nanos as int }).wf(),
            r matches Some(t) ==> t@ == (ClockTime { secs: secs as int, nanos: nanos as int }),
    {
        if secs < SECONDS_PER_DAY && nanos < NANOS_BOUND {
            Some(TimeOfDay { secs, nanos })
        } else {
            None
        }
    }

    /// Reads a time of day from a text of the form `HH:MM:SS`, with or
    /// without an offset behind it. The offset is discarded.
    pub fn from_text(text: &str) -> (r: Option<TimeOfDay>)
        ensures
            r is Some <==> ClockTime::reading(text@) is Some,
            r matches Some(t) ==> ClockTime::reading(text@) == Some(t@),
    {
        match read_clock(clock_text(text)) {
            Ok(v) => Some(TimeOfDay { secs: v.0, nanos: v.1 }),
            Err(_) => None,
        }
    }

    /// The seconds since midnight.
    pub fn secs(&self) -> (n: u32)
        ensures
            n == self@.secs,
            n < SECONDS_PER_DAY,
    {
        proof {
            use_type_invariant(self);
        }
        self.secs
    }

    /// The nanoseconds within the second.
    pub fn nanos(&self) -> (n: u32)
        ensures
            n == self@.nanos,
            n < NANOS_BOUND,
    {
        proof {
            use_type_invariant(self);
        }
        self.nanos
    }

    /// Whether this time is no earlier in the day than `other`.
    pub fn at_or_after(&self, other: &TimeOfDay) -> (b: bool)
        ensures
            b == self@.at_or_after(other@),
    {
        self.secs > other.secs || (self.secs == other.secs && self.nanos >= other.nanos)
    }

    /// Whether this time is later in the day than `other`.
    pub fn after(&self, other: &TimeOfDay) -> (b: bool)
        ensures
            b == self@.after(other@),
    {
        self.secs > other.secs || (self.secs == other.secs && self.nanos > other.nanos)
    }
}

/// An absolute timestamp: a local date and time with its offset from UTC.
///
/// Two timestamps are equal when all four of their fields are; to compare
/// the instants that they name, use `at_or_before`.
#[derive(Clone, Copy, Debug, PartialEq, Eq, Structural)]
pub struct Timestamp {
    days: i32,
    secs: u32,
    nanos: u32,
    offset: i32,
}

impl View for Timestamp {
    type V = Moment;

    closed spec fn view(&self) -> Moment {
        Moment {
            days: self.days as int,
            secs: self.secs as int,
            nanos: self.nanos as int,
            offset: self.offset as int,
        }
    }
}

impl Timestamp {
    /// What holds of every timestamp: its model is in range.
    #[verifier::type_invariant]
    pub open spec fn valid(self) -> bool {
        self@.wf()
    }

    /// The timestamp with the given fields, if they are in range.
    pub fn new(days: i32, secs: u32, nanos: u32, offset: i32) -> (r: Option<Timestamp>)
        ensures
            r is Some <==> Moment::of(days as int, secs as int, nanos as int, offset as int).wf(),
            r matches Some(t) ==> t@ == Moment::of(
                days as int,
                secs as int,
                nanos as int,
                offset as int,
            ),
    {
        if secs < SECONDS_PER_DAY && nanos < NANOS_BOUND && -86_400 < offset && offset < 86_400 {
            Some(Timestamp { days, secs, nanos, offset })
        } else {
            None
        }
    }

    /// The day number of the local date.
    pub fn days(&self) -> (n: i32)
        ensures
            n == self@.days,
    {
        self.days
    }

    /// The seconds since local midnight.
    pub fn secs(&self) -> (n: u32)
        ensures
            n == self@.secs,
            n < SECONDS_PER_DAY,
    {
        proof {
            use_type_invariant(self);
        }
        self.secs
    }

    /// The nanoseconds within the second.
    pub fn nanos(&self) -> (n: u32)
        ensures
            n == self@.nanos,
            n < NANOS_BOUND,
    {
        proof {
            use_type_invariant(self);
        }
        self.nanos
    }

    /// The offset of the local time, in seconds east of UTC.
    pub fn offset(&self) -> (n: i32)
        ensures
            n == self@.offset,
            -SECONDS_PER_DAY < n < SECONDS_PER_DAY,
    {
        proof {
            use_type_invariant(self);
        }
        self.offset
    }

    /// The local time of day.
    pub fn time_of_day(&self) -> (t: TimeOfDay)
        ensures
            t@ == self@.clock(),
    {
        proof {
            use_type_invariant(self);
        }
        TimeOfDay { secs: self.secs, nanos: self.nanos }
    }

    /// The weekday of the local date.
    pub fn weekday(&self) -> (day: Weekday)
        ensures
            day == self@.weekday(),
    {
        // 2147483653 is a multiple of 7, so the sum is congruent to `days - 1`
        // and never negative.
        let shifted: i64 = self.days as i64 + 2_147_483_652;
        let index: i64 = shifted % 7;
        assert(index == (self.days - 1) % 7);
        Weekday::from_days_from_monday(index as u32)
    }

    /// Whether this instant is `other` or comes before it.
    pub fn at_or_before(&self, other: &Timestamp) -> (b: bool)
        ensures
            b == self@.at_or_before(other@),
    {
        proof {
            use_type_invariant(self);
            use_type_invariant(other);
        }
        let mine: i64 = self.days as i64 * 86_400 + self.secs as i64 - self.offset as i64;
        let theirs: i64 = other.days as i64 * 86_400 + other.secs as i64 - other.offset as i64;
        mine < theirs || (mine == theirs && self.nanos <= other.nanos)
    }

    /// The local time `clock` on the date of this timestamp, `n` days later,
    /// at the same offset; `None` where that day number does not fit.
    pub fn days_later_at(&self, n: u32, clock: &TimeOfDay) -> (r: Option<Timestamp>)
        ensures
            r is Some <==> self@.days + n <= i32::MAX,
            r matches Some(t) ==> t@ == self@.days_later_at(n as int, clock@),
    {
        proof {
            use_type_invariant(self);
            use_type_invariant(clock);
        }
        let day: i64 = self.days as i64 + n as i64;
        if day <= i32::MAX as i64 {
            Some(
                Timestamp {
                    days: day as i32,
                    secs: clock.secs,
                    nanos: clock.nanos,
                    offset: self.offset,
                },
            )
        } else {
            None
        }
    }

    /// The same local time of day and offset, `n` days later; `None` where
    /// that day number does not fit.
    pub fn plus_days(&self, n: u32) -> (r: Option<Timestamp>)
        ensures
            r is Some <==> self@.days + n <= i32::MAX,
            r matches Some(t) ==> t@ == self@.plus_days(n as int),
    {
        let clock = self.time_of_day();
        self.days_later_at(n, &clock)
    }

    /// Reads a timestamp from a text of the form `YYYY-MM-DD HH:MM:SS±HH:MM`.
    pub fn from_text(text: &str) -> (r: Option<Timestamp>)
        ensures
            r is Some <==> Moment::reading(text@) is Some,
            r matches Some(t) ==> Moment::reading(text@) == Some(t@),
    {
        match read_stamp(text) {
            Ok(v) => Some(Timestamp { days: v.0, secs: v.1, nanos: v.2, offset: v.3 }),
            Err(_) => None,
        }
    }

    /// Writes this timestamp in the form `YYYY-MM-DD HH:MM:SS±HH:MM`; `None`
    /// where the calendar holds no such date.
    pub fn to_text(&self) -> (r: Option<String>)
        ensures
            r is Some <==> self@.text() is Some,
            r matches Some(s) ==> self@.text() == Some(s@),
    {
        write_stamp(self.days, self.secs, self.nanos, self.offset)
    }

    /// Writes this timestamp in the form `YYYY-MM-DD HH:MM:SS±HH:MM` and
    /// reads the text back; `None` where the timestamp cannot be written or
    /// the text does not give this timestamp again.
    pub fn to_faithful_text(&self) -> (r: Option<String>)
        ensures
            r is Some <==> self@.faithful_text() is Some,
            r matches Some(s) ==> self@.faithful_text() == Some(s@) && Moment::reading(s@) == Some(
                self@,
            ),
    {
        let text = match self.to_text() {
            Some(text) => text,
            None => {
                return None;
            },
        };
        match Timestamp::from_text(text.as_str()) {
            Some(back) => if back.days == self.days && back.secs == self.secs && back.nanos
                == self.nanos && back.offset == self.offset {
                Some(text)
            } else {
                None
            },
            None => None,
        }
    }
}

} // verus!
