//! The arguments of the command that sets a reminder.

use crate::reminder::error::ReminderError;
use crate::reminder::model::Weekday;
use crate::reminder::schedule::Cadence;
use vstd::prelude::*;

verus! {

/// The day of the week as the command offers it for choice.
#[derive(Clone, Copy, Debug, PartialEq, Eq, Structural)]
pub enum WeekdayParam {
    Monday,
    Tuesday,
    Wednesday,
    Thursday,
    Friday,
    Saturday,
    Sunday,
}

impl WeekdayParam {
    /// The weekday that this choice stands for.
    pub open spec fn weekday(self) -> Weekday {
        match self {
            WeekdayParam::Monday => Weekday::Mon,
            WeekdayParam::Tuesday => Weekday::Tue,
            WeekdayParam::Wednesday => Weekday::Wed,
            WeekdayParam::Thursday => Weekday::Thu,
            WeekdayParam::Friday => Weekday::Fri,
            WeekdayParam::Saturday => Weekday::Sat,
            WeekdayParam::Sunday => Weekday::Sun,
        }
    }

    /// Turns the choice into the weekday that it stands for.
    pub fn to_weekday(&self) -> (day: Weekday)
        ensures
            day == self.weekday(),
    {
        match self {
            WeekdayParam::Monday => Weekday::Mon,
            WeekdayParam::Tuesday => Weekday::Tue,
            WeekdayParam::Wednesday => Weekday::Wed,
            WeekdayParam::Thursday => Weekday::Thu,
            WeekdayParam::Friday => Weekday::Fri,
            WeekdayParam::Saturday => Weekday::Sat,
            WeekdayParam::Sunday => Weekday::Sun,
        }
    }
}

/// The cadence fields of the reminder that the command asks for.
#[derive(Clone, Copy, Debug, PartialEq, Eq, Structural)]
pub struct CadenceFields {
    pub is_per_day: bool,
    pub days: Option<u32>,
    pub week: Option<Weekday>,
}

impl CadenceFields {
    /// Exactly one of the two cadence fields is populated, the one of the
    /// kind of the reminder, and an interval is of one day or more.
    pub open spec fn one_cadence(self) -> bool {
        if self.is_per_day {
            &&& self.week is None
            &&& self.days matches Some(n)
            &&& n > 0
        } else {
            self.days is None && self.week is Some
        }
    }
}

/// The cadence fields for the two optional arguments of the command, or the
/// reason why the request is turned down.
///
/// An interval alone asks for a daily reminder, a weekday alone for a weekly
/// one, and each leaves the other field empty. An interval together with a
/// weekday is a conflict. Neither of them, or an interval of no days, leaves
/// the cadence parameter missing.
pub open spec fn fields_for(days: Option<u32>, weekday: Option<WeekdayParam>) -> Result<
    CadenceFields,
    ReminderError,
> {
    match (days, weekday) {
        (Some(_), Some(_)) => Err(ReminderError::ConflictingCadenceParameters),
        (Some(n), None) => if n > 0 {
            Ok(CadenceFields { is_per_day: true, days: Some(n), week: None })
        } else {
            Err(ReminderError::MissingCadenceParameter)
        },
        (None, Some(choice)) => Ok(
            CadenceFields { is_per_day: false, days: None, week: Some(choice.weekday()) },
        ),
        (None, None) => Err(ReminderError::MissingCadenceParameter),
    }
}

/// Works out the cadence fields of the reminder from the two optional
/// arguments of the command. The fields that it returns hold exactly one
/// cadence.
pub fn cadence_fields(days: Option<u32>, weekday: Option<WeekdayParam>) -> (r: Result<
    CadenceFields,
    ReminderError,
>)
    ensures
        r == fields_for(days, weekday),
        r matches Ok(fields) ==> fields.one_cadence() && Cadence::of_parts(
            fields.is_per_day,
            fields.days,
            fields.week,
        ) is Some,
{
    match (days, weekday) {
        (Some(_), Some(_)) => Err(ReminderError::ConflictingCadenceParameters),
        (Some(n), None) => if n > 0 {
            Ok(CadenceFields { is_per_day: true, days: Some(n), week: None })
        } else {
            Err(ReminderError::MissingCadenceParameter)
        },
        (None, Some(choice)) => Ok(
            CadenceFields { is_per_day: false, days: None, week: Some(choice.to_weekday()) },
        ),
        (None, None) => Err(ReminderError::MissingCadenceParameter),
    }
}

/// A request that is accepted is stored as it was asked: the record that the
/// store makes of the fields holds the same kind, interval and weekday, and
/// so exactly one cadence.
pub proof fn lemma_request_is_stored_as_asked(days: Option<u32>, weekday: Option<WeekdayParam>)
    requires
        fields_for(days, weekday) is Ok,
    ensures
        ({
            let fields = fields_for(days, weekday)->Ok_0;
            let cadence = Cadence::of_parts(fields.is_per_day, fields.days, fields.week);
            &&& days is Some <==> weekday is None
            &&& fields.is_per_day == (days is Some)
            &&& fields.one_cadence()
            &&& cadence matches Some(c)
            &&& c.is_per_day() == fields.is_per_day
            &&& c.days() == fields.days
            &&& c.week() == fields.week
        }),
{
}

} // verus!
