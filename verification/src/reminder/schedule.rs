//! The schedule calculator: when a reminder fires first, and when next.
//!
//! Both computations work on the local date and time of the timestamp they
//! are given and keep its offset. Neither looks at a clock.

use crate::reminder::error::ReminderError;
use crate::reminder::model::Weekday;
use crate::reminder::timestamp::{ClockTime, Moment, TimeOfDay, Timestamp};
use vstd::prelude::*;

verus! {

/// How a reminder repeats.
#[derive(Clone, Copy, Debug, PartialEq, Eq, Structural)]
pub enum Cadence {
    /// Every so many days.
    PerDay(u32),
    /// Every week, on this day.
    PerWeek(Weekday),
}

impl Cadence {
    /// A daily cadence has an interval of one day or more.
    pub open spec fn wf(self) -> bool {
        self matches Cadence::PerDay(n) ==> n > 0
    }

    /// The number of days from one fire to the next.
    pub open spec fn period(self) -> int {
        match self {
            Cadence::PerDay(n) => n as int,
            Cadence::PerWeek(_) => 7,
        }
    }

    /// Whether this cadence is the daily one, as a record says it.
    pub open spec fn is_per_day(self) -> bool {
        self is PerDay
    }

    /// The interval that a record of this cadence holds: that of a daily
    /// cadence, none for a weekly one.
    pub open spec fn days(self) -> Option<u32> {
        match self {
            Cadence::PerDay(n) => Some(n),
            Cadence::PerWeek(_) => None,
        }
    }

    /// The weekday that a record of this cadence holds: that of a weekly
    /// cadence, none for a daily one.
    pub open spec fn week(self) -> Option<Weekday> {
        match self {
            Cadence::PerDay(_) => None,
            Cadence::PerWeek(day) => Some(day),
        }
    }

    /// The cadence that the three fields of a record stand for, if they hold
    /// what their kind needs: an interval of one day or more for a daily
    /// reminder, a weekday for a weekly one.
    pub open spec fn of_parts(is_per_day: bool, days: Option<u32>, week: Option<Weekday>) -> Option<
        Cadence,
    > {
        if is_per_day {
            match days {
                Some(n) => if n > 0 {
                    Some(Cadence::PerDay(n))
                } else {
                    None
                },
                None => None,
            }
        } else {
            match week {
                Some(day) => Some(Cadence::PerWeek(day)),
                None => None,
            }
        }
    }

    /// Builds the cadence from the three fields of a record.
    pub fn from_parts(is_per_day: bool, days: Option<u32>, week: Option<Weekday>) -> (r: Result<
        Cadence,
        ReminderError,
    >)
        ensures
            r == match Cadence::of_parts(is_per_day, days, week) {
                Some(c) => Ok::<Cadence, ReminderError>(c),
                None => Err(ReminderError::MissingCadenceParameter),
            },
            r matches Ok(c) ==> c.wf(),
    {
        if is_per_day {
            match days {
                Some(n) => if n > 0 {
                    Ok(Cadence::PerDay(n))
                } else {
                    Err(ReminderError::MissingCadenceParameter)
                },
                None => Err(ReminderError::MissingCadenceParameter),
            }
        } else {
            match week {
                Some(day) => Ok(Cadence::PerWeek(day)),
                None => Err(ReminderError::MissingCadenceParameter),
            }
        }
    }

    /// The number of days from one fire to the next.
    pub fn period_days(&self) -> (n: u32)
        ensures
            n == self.period(),
    {
        match self {
            Cadence::PerDay(n) => *n,
            Cadence::PerWeek(_) => 7,
        }
    }
}

/// The number of days from a day that is a `today` to the next day that is a
/// `target`: none if they are the same day of the week.
pub open spec fn days_until(target: Weekday, today: Weekday) -> int {
    (target.index() - today.index() + 7) % 7
}

/// The number of days from the date of `now` to the date of the first fire.
///
/// A daily reminder fires today if the target time is still ahead, and one
/// interval later if not. A weekly reminder fires on the next day that is
/// its weekday, which is today unless the target time has passed.
pub open spec fn first_fire_delay(cadence: Cadence, target: ClockTime, now: Moment) -> int {
    match cadence {
        Cadence::PerDay(n) => if now.clock().at_or_after(target) {
            n as int
        } else {
            0
        },
        Cadence::PerWeek(day) => {
            let until = days_until(day, now.weekday());
            if until == 0 && now.clock().after(target) {
                7
            } else {
                until
            }
        },
    }
}

/// The first fire of a reminder created at `now`: the target time on the
/// date that `first_fire_delay` gives, at the offset of `now`.
pub open spec fn first_fire_at(cadence: Cadence, target: ClockTime, now: Moment) -> Moment {
    now.days_later_at(first_fire_delay(cadence, target, now), target)
}

/// The fire that follows the fire at `previous`: one period later.
pub open spec fn next_fire_at(cadence: Cadence, previous: Moment) -> Moment {
    previous.plus_days(cadence.period())
}

/// What `compute_first_fire` returns: the first fire, or the reason why
/// there is none. A missing cadence parameter is found before a malformed
/// time, and that before a date out of range.
pub open spec fn first_fire_outcome(
    is_per_day: bool,
    days: Option<u32>,
    week: Option<Weekday>,
    time: Seq<char>,
    now: Moment,
) -> Result<Moment, ReminderError> {
    match Cadence::of_parts(is_per_day, days, week) {
        None => Err(ReminderError::MissingCadenceParameter),
        Some(cadence) => match ClockTime::reading(time) {
            None => Err(ReminderError::InvalidTimeFormat),
            Some(target) => if now.days + first_fire_delay(cadence, target, now) <= i32::MAX {
                Ok(first_fire_at(cadence, target, now))
            } else {
                Err(ReminderError::TimestampOutOfRange)
            },
        },
    }
}

/// Computes the first fire of a reminder with the given cadence and target
/// time, created at `now`; `None` where its day number does not fit.
pub fn first_fire(cadence: &Cadence, target: &TimeOfDay, now: &Timestamp) -> (r: Option<Timestamp>)
    ensures
        r is Some <==> now@.days + first_fire_delay(*cadence, target@, now@) <= i32::MAX,
        r matches Some(t) ==> t@ == first_fire_at(*cadence, target@, now@),
{
    let current = now.time_of_day();
    let delay: u32 = match cadence {
        Cadence::PerDay(n) => if current.at_or_after(target) {
            *n
        } else {
            0
        },
        Cadence::PerWeek(day) => {
            let today = now.weekday();
            let until: u32 = (day.num_days_from_monday() + 7 - today.num_days_from_monday()) % 7;
            if until == 0 && current.after(target) {
                7
            } else {
                until
            }
        },
    };
    now.days_later_at(delay, target)
}

/// Computes the first fire of a reminder from the fields of its record and
/// the time of day as entered, for a reminder created at `now`.
pub fn compute_first_fire(
    is_per_day: bool,
    days: Option<u32>,
    week: Option<Weekday>,
    time: &str,
    now: &Timestamp,
) -> (r: Result<Timestamp, ReminderError>)
    ensures
        match first_fire_outcome(is_per_day, days, week, time@, now@) {
            Ok(fire) => r matches Ok(t) && t@ == fire,
            Err(e) => r == Err::<Timestamp, ReminderError>(e),
        },
{
    let cadence = match Cadence::from_parts(is_per_day, days, week) {
        Ok(c) => c,
        Err(e) => {
            return Err(e);
        },
    };
    let target = match TimeOfDay::from_text(time) {
        Some(t) => t,
        None => {
            return Err(ReminderError::InvalidTimeFormat);
        },
    };
    match first_fire(&cadence, &target, now) {
        Some(t) => Ok(t),
        None => Err(ReminderError::TimestampOutOfRange),
    }
}

/// Computes the fire that follows the fire at `previous`: the same local
/// time and offset, one period later; `None` where its day number does not
/// fit. The result depends on nothing but the cadence and `previous`.
pub fn compute_next_fire(cadence: &Cadence, previous: &Timestamp) -> (r: Option<Timestamp>)
    ensures
        r is Some <==> previous@.days + cadence.period() <= i32::MAX,
        r matches Some(t) ==> t@ == next_fire_at(*cadence, previous@),
{
    previous.plus_days(cadence.period_days())
}

/// A daily reminder fires first today at the target time if that time is
/// still ahead, and otherwise one interval of days later at the target time.
pub proof fn lemma_first_fire_per_day(interval: u32, target: ClockTime, now: Moment)
    ensures
        !now.clock().at_or_after(target) ==> first_fire_at(Cadence::PerDay(interval), target, now)
            == now.days_later_at(0, target),
        now.clock().at_or_after(target) ==> first_fire_at(Cadence::PerDay(interval), target, now)
            == now.days_later_at(interval as int, target),
{
}

/// A weekly reminder never fires first before the time of its creation, it
/// fires within a week of it, and it fires on the weekday asked for.
pub proof fn lemma_first_fire_per_week(day: Weekday, target: ClockTime, now: Moment)
    requires
        target.wf(),
        now.wf(),
    ensures
        now.at_or_before(first_fire_at(Cadence::PerWeek(day), target, now)),
        0 <= first_fire_delay(Cadence::PerWeek(day), target, now) <= 7,
        first_fire_at(Cadence::PerWeek(day), target, now).weekday() == day,
        first_fire_at(Cadence::PerWeek(day), target, now).clock() == target,
{
    // The delay makes up the difference of the two weekdays modulo 7.
    let delay = first_fire_delay(Cadence::PerWeek(day), target, now);
    assert((now.days + delay - 1) % 7 == day.index());
}

/// The next fire lies one period after the previous one: an interval of
/// days for a daily reminder, seven days for a weekly one, whatever the time
/// at which it is computed.
pub proof fn lemma_next_fire_rolls_forward(cadence: Cadence, previous: Moment)
    ensures
        cadence matches Cadence::PerDay(n) ==> next_fire_at(cadence, previous)
            == previous.plus_days(n as int),
        cadence matches Cadence::PerWeek(_) ==> next_fire_at(cadence, previous)
            == previous.plus_days(7),
        next_fire_at(cadence, previous).utc_seconds() == previous.utc_seconds() + cadence.period()
            * 86_400,
        next_fire_at(cadence, previous).clock() == previous.clock(),
{
}

} // verus!
