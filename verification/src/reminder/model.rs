//! The records of the reminder subsystem and their mathematical models.

use vstd::prelude::*;

pub use crate::reminder::collection::RemindersMap;

verus! {

/// A day of the week.
#[derive(Clone, Copy, Debug, PartialEq, Eq, Structural)]
pub enum Weekday {
    Mon,
    Tue,
    Wed,
    Thu,
    Fri,
    Sat,
    Sun,
}

impl Weekday {
    /// The number of days from Monday to this day: 0 for Monday, 6 for Sunday.
    pub open spec fn index(self) -> int {
        match self {
            Weekday::Mon => 0,
            Weekday::Tue => 1,
            Weekday::Wed => 2,
            Weekday::Thu => 3,
            Weekday::Fri => 4,
            Weekday::Sat => 5,
            Weekday::Sun => 6,
        }
    }

    /// The day that lies `n` days after a Monday, for `n` below 7.
    pub open spec fn at(n: int) -> Weekday {
        if n == 0 {
            Weekday::Mon
        } else if n == 1 {
            Weekday::Tue
        } else if n == 2 {
            Weekday::Wed
        } else if n == 3 {
            Weekday::Thu
        } else if n == 4 {
            Weekday::Fri
        } else if n == 5 {
            Weekday::Sat
        } else {
            Weekday::Sun
        }
    }

    /// Counts the days from Monday to this day.
    pub fn num_days_from_monday(&self) -> (n: u32)
        ensures
            n == self.index(),
            n < 7,
    {
        match self {
            Weekday::Mon => 0,
            Weekday::Tue => 1,
            Weekday::Wed => 2,
            Weekday::Thu => 3,
            Weekday::Fri => 4,
            Weekday::Sat => 5,
            Weekday::Sun => 6,
        }
    }

    /// The day that lies `n` days after a Monday.
    pub fn from_days_from_monday(n: u32) -> (day: Weekday)
        requires
            n < 7,
        ensures
            day == Weekday::at(n as int),
            day.index() == n,
    {
        if n == 0 {
            Weekday::Mon
        } else if n == 1 {
            Weekday::Tue
        } else if n == 2 {
            Weekday::Wed
        } else if n == 3 {
            Weekday::Thu
        } else if n == 4 {
            Weekday::Fri
        } else if n == 5 {
            Weekday::Sat
        } else {
            Weekday::Sun
        }
    }
}

/// The model of a stored reminder: its fields, with texts as sequences of
/// characters.
pub struct Record {
    pub user_id: u64,
    pub name: Seq<char>,
    pub channel_id: u64,
    pub text: Seq<char>,
    pub is_per_day: bool,
    pub days: Option<u32>,
    pub time: Seq<char>,
    pub week: Option<Weekday>,
    pub next_reminder: Seq<char>,
    pub before_remind: Seq<char>,
}

/// The model of a partial update: for each field of a record, the new value
/// if the field is to change.
pub struct Changes {
    pub name: Option<Seq<char>>,
    pub channel_id: Option<u64>,
    pub text: Option<Seq<char>>,
    pub is_per_day: Option<bool>,
    pub days: Option<Option<u32>>,
    pub time: Option<Seq<char>>,
    pub week: Option<Option<Weekday>>,
    pub next_reminder: Option<Seq<char>>,
    pub before_remind: Option<Seq<char>>,
}

impl Changes {
    /// The update that changes nothing.
    pub open spec fn none() -> Changes {
        Changes {
            name: None,
            channel_id: None,
            text: None,
            is_per_day: None,
            days: None,
            time: None,
            week: None,
            next_reminder: None,
            before_remind: None,
        }
    }
}

impl Record {
    /// Exactly one of the two cadence fields is populated, the one of the
    /// kind of the reminder: a daily reminder holds an interval of one day or
    /// more and no weekday, a weekly one a weekday and no interval.
    pub open spec fn one_cadence(self) -> bool {
        if self.is_per_day {
            &&& self.week is None
            &&& self.days matches Some(n)
            &&& n > 0
        } else {
            self.days is None && self.week is Some
        }
    }

    /// This record after a partial update: each field that the update names
    /// has the new value, every other field is as before.
    pub open spec fn updated(self, changes: Changes) -> Record {
        Record {
            user_id: self.user_id,
            name: match changes.name {
                Some(v) => v,
                None => self.name,
            },
            channel_id: match changes.channel_id {
                Some(v) => v,
                None => self.channel_id,
            },
            text: match changes.text {
                Some(v) => v,
                None => self.text,
            },
            is_per_day: match changes.is_per_day {
                Some(v) => v,
                None => self.is_per_day,
            },
            days: match changes.days {
                Some(v) => v,
                None => self.days,
            },
            time: match changes.time {
                Some(v) => v,
                None => self.time,
            },
            week: match changes.week {
                Some(v) => v,
                None => self.week,
            },
            next_reminder: match changes.next_reminder {
                Some(v) => v,
                None => self.next_reminder,
            },
            before_remind: match changes.before_remind {
                Some(v) => v,
                None => self.before_remind,
            },
        }
    }
}

/// One reminder as it is stored.
///
/// `next_reminder` and `before_remind` hold timestamps as text, in the form
/// `YYYY-MM-DD HH:MM:SS±HH:MM`; `before_remind` is empty until the reminder
/// has fired once.
#[derive(Debug, PartialEq, Eq)]
pub struct ReminderData {
    pub user_id: u64,
    pub name: String,
    pub channel_id: u64,
    pub text: String,
    pub is_per_day: bool,
    pub days: Option<u32>,
    pub time: String,
    pub week: Option<Weekday>,
    pub next_reminder: String,
    pub before_remind: String,
}

impl View for ReminderData {
    type V = Record;

    open spec fn view(&self) -> Record {
        Record {
            user_id: self.user_id,
            name: self.name@,
            channel_id: self.channel_id,
            text: self.text@,
            is_per_day: self.is_per_day,
            days: self.days,
            time: self.time@,
            week: self.week,
            next_reminder: self.next_reminder@,
            before_remind: self.before_remind@,
        }
    }
}

impl Clone for ReminderData {
    fn clone(&self) -> (copy: Self)
        ensures
            copy == *self,
    {
        ReminderData {
            user_id: self.user_id,
            name: self.name.clone(),
            channel_id: self.channel_id,
            text: self.text.clone(),
            is_per_day: self.is_per_day,
            days: self.days,
            time: self.time.clone(),
            week: self.week,
            next_reminder: self.next_reminder.clone(),
            before_remind: self.before_remind.clone(),
        }
    }
}

/// A partial update of a stored reminder: each field that is `Some` is to
/// change to the value given, each field that is `None` stays as it is.
pub struct ReminderUpdate<'a> {
    pub name: Option<&'a str>,
    pub channel_id: Option<u64>,
    pub text: Option<&'a str>,
    pub is_per_day: Option<bool>,
    pub days: Option<Option<u32>>,
    pub time: Option<&'a str>,
    pub week: Option<Option<&'a Weekday>>,
    pub next_reminder: Option<&'a str>,
    pub before_remind: Option<&'a str>,
}

impl<'a> View for ReminderUpdate<'a> {
    type V = Changes;

    open spec fn view(&self) -> Changes {
        Changes {
            name: match self.name {
                Some(v) => Some(v@),
                None => None,
            },
            channel_id: self.channel_id,
            text: match self.text {
                Some(v) => Some(v@),
                None => None,
            },
            is_per_day: self.is_per_day,
            days: self.days,
            time: match self.time {
                Some(v) => Some(v@),
                None => None,
            },
            week: match self.week {
                Some(Some(day)) => Some(Some(*day)),
                Some(None) => Some(None),
                None => None,
            },
            next_reminder: match self.next_reminder {
                Some(v) => Some(v@),
                None => None,
            },
            before_remind: match self.before_remind {
                Some(v) => Some(v@),
                None => None,
            },
        }
    }
}

impl<'a> Default for ReminderUpdate<'a> {
    /// The update that changes nothing.
    fn default() -> (update: Self)
        ensures
            update@ == Changes::none(),
    {
        ReminderUpdate {
            name: None,
            channel_id: None,
            text: None,
            is_per_day: None,
            days: None,
            time: None,
            week: None,
            next_reminder: None,
            before_remind: None,
        }
    }
}

impl ReminderData {
    /// Changes the fields that `update` names and leaves the others.
    pub fn apply(&mut self, update: &ReminderUpdate<'_>)
        ensures
            final(self)@ == old(self)@.updated(update@),
    {
        if let Some(v) = update.name {
            self.name = v.to_owned();
        }
        if let Some(v) = update.channel_id {
            self.channel_id = v;
        }
        if let Some(v) = update.text {
            self.text = v.to_owned();
        }
        if let Some(v) = update.is_per_day {
            self.is_per_day = v;
        }
        if let Some(v) = update.days {
            self.days = v;
        }
        if let Some(v) = update.time {
            self.time = v.to_owned();
        }
        if let Some(v) = update.week {
            self.week = match v {
                Some(day) => Some(*day),
                None => None,
            };
        }
        if let Some(v) = update.next_reminder {
            self.next_reminder = v.to_owned();
        }
        if let Some(v) = update.before_remind {
            self.before_remind = v.to_owned();
        }
    }
}

} // verus!
