//! Creating, changing and deleting the reminders of one owner.
//!
//! Each operation works on the whole collection of the owner, as it was read
//! from where it is kept, and leaves it as it is to be written back.

use crate::reminder::collection::{dropped, has_key, placed, RemindersMap};
use crate::reminder::error::ReminderError;
use crate::reminder::model::{Changes, Record, ReminderData, ReminderUpdate, Weekday};
use crate::reminder::schedule::{compute_first_fire, first_fire_outcome, Cadence};
use crate::reminder::timestamp::{Moment, Timestamp};
use vstd::prelude::*;

verus! {

/// The operations on the reminders of one owner.
pub struct ReminderUtil;

/// The weekday behind a reference, if there is one.
pub open spec fn day_of(week: Option<&Weekday>) -> Option<Weekday> {
    match week {
        Some(day) => Some(*day),
        None => None,
    }
}

/// The record of a reminder that was never fired and fires next at the time
/// that `next_reminder` names. Of the two cadence fields it holds the one of
/// its cadence and not the other.
pub open spec fn fresh_record(
    user_id: u64,
    name: Seq<char>,
    channel_id: u64,
    text: Seq<char>,
    cadence: Cadence,
    time: Seq<char>,
    next_reminder: Seq<char>,
) -> Record {
    Record {
        user_id,
        name,
        channel_id,
        text,
        is_per_day: cadence.is_per_day(),
        days: cadence.days(),
        time,
        week: cadence.week(),
        next_reminder,
        before_remind: Seq::empty(),
    }
}

/// The text of the first fire of a reminder created at `now`, or the reason
/// why the reminder cannot be created: what `first_fire_outcome` says, and a
/// first fire that has no faithful text is out of range.
pub open spec fn first_fire_text(
    is_per_day: bool,
    days: Option<u32>,
    week: Option<Weekday>,
    time: Seq<char>,
    now: Moment,
) -> Result<Seq<char>, ReminderError> {
    match first_fire_outcome(is_per_day, days, week, time, now) {
        Err(e) => Err(e),
        Ok(fire) => match fire.faithful_text() {
            Some(text) => Ok(text),
            None => Err(ReminderError::TimestampOutOfRange),
        },
    }
}

impl ReminderUtil {
    /// Puts a reminder that was never fired under its name, in place of the
    /// reminder that stood under that name if there was one.
    ///
    /// The cadence is taken from the field of its kind: the interval of a
    /// daily reminder, the weekday of a weekly one. The other field is not
    /// stored. Where the field of its kind is missing, or the interval is of
    /// no days, nothing is stored.
    pub fn store_reminder(
        reminders: &mut RemindersMap,
        user_id: u64,
        name: &str,
        channel_id: u64,
        text: &str,
        is_per_day: bool,
        days: Option<u32>,
        time: &str,
        week: Option<&Weekday>,
        next_reminder: String,
    ) -> (r: Result<(), ReminderError>)
        ensures
            match Cadence::of_parts(is_per_day, days, day_of(week)) {
                Some(cadence) => {
                    let record = fresh_record(
                        user_id,
                        name@,
                        channel_id,
                        text@,
                        cadence,
                        time@,
                        next_reminder@,
                    );
                    &&& r is Ok
                    &&& record.one_cadence()
                    &&& final(reminders)@ == old(reminders)@.insert(name@, record)
                    &&& final(reminders).listing() == placed(
                        old(reminders).listing(),
                        name@,
                        record,
                    )
                },
                None => {
                    &&& r == Err::<(), ReminderError>(ReminderError::MissingCadenceParameter)
                    &&& final(reminders)@ == old(reminders)@
                    &&& final(reminders).listing() == old(reminders).listing()
                },
            },
    {
        let day: Option<Weekday> = match week {
            Some(day) => Some(*day),
            None => None,
        };
        let cadence = match Cadence::from_parts(is_per_day, days, day) {
            Ok(cadence) => cadence,
            Err(e) => {
                return Err(e);
            },
        };
        let data = match cadence {
            Cadence::PerDay(n) => ReminderData {
                user_id,
                name: name.to_owned(),
                channel_id,
                text: text.to_owned(),
                is_per_day: true,
                days: Some(n),
                time: time.to_owned(),
                week: None,
                next_reminder,
                before_remind: String::new(),
            },
            Cadence::PerWeek(day) => ReminderData {
                user_id,
                name: name.to_owned(),
                channel_id,
                text: text.to_owned(),
                is_per_day: false,
                days: None,
                time: time.to_owned(),
                week: Some(day),
                next_reminder,
                before_remind: String::new(),
            },
        };
        reminders.insert(name.to_owned(), data);
        Ok(())
    }

    /// Creates a reminder at the time `now`: computes its first fire and
    /// puts it under its name, in place of the reminder that stood under
    /// that name if there was one. Of the two cadence fields the record
    /// holds the one of its kind and not the other. Where the reminder
    /// cannot be created, the collection stays as it is.
    pub fn make_reminder(
        reminders: &mut RemindersMap,
        user_id: u64,
        name: &str,
        channel_id: u64,
        text: &str,
        is_per_day: bool,
        days: Option<u32>,
        time: &str,
        week: Option<&Weekday>,
        now: &Timestamp,
    ) -> (r: Result<(), ReminderError>)
        ensures
            match first_fire_text(is_per_day, days, day_of(week), time@, now@) {
                Ok(next) => {
                    let record = fresh_record(
                        user_id,
                        name@,
                        channel_id,
                        text@,
                        Cadence::of_parts(is_per_day, days, day_of(week))->0,
                        time@,
                        next,
                    );
                    &&& r is Ok
                    &&& record.one_cadence()
                    &&& final(reminders)@ == old(reminders)@.insert(name@, record)
                    &&& final(reminders).listing() == placed(
                        old(reminders).listing(),
                        name@,
                        record,
                    )
                },
                Err(e) => {
                    &&& r == Err::<(), ReminderError>(e)
                    &&& final(reminders)@ == old(reminders)@
                    &&& final(reminders).listing() == old(reminders).listing()
                },
            },
    {
        let day: Option<Weekday> = match week {
            Some(day) => Some(*day),
            None => None,
        };
        let fire = match compute_first_fire(is_per_day, days, day, time, now) {
            Ok(fire) => fire,
            Err(e) => {
                return Err(e);
            },
        };
        let next_reminder = match fire.to_faithful_text() {
            Some(text) => text,
            None => {
                return Err(ReminderError::TimestampOutOfRange);
            },
        };
        Self::store_reminder(
            reminders,
            user_id,
            name,
            channel_id,
            text,
            is_per_day,
            days,
            time,
            week,
            next_reminder,
        )
    }

    /// Deletes the reminder under `name`. Where there is none, nothing
    /// changes.
    pub fn remove_reminder(reminders: &mut RemindersMap, name: &str)
        ensures
            final(reminders)@ == old(reminders)@.remove(name@),
            final(reminders).listing() == dropped(old(reminders).listing(), name@),
    {
        let _ = reminders.remove(name);
    }

    /// Changes the fields that `update` names in the reminder under
    /// `reminder_name` and leaves its other fields. Where no reminder stands
    /// under that name, nothing changes.
    pub fn edit_reminders_json(
        reminders: &mut RemindersMap,
        reminder_name: &str,
        update: ReminderUpdate<'_>,
    )
        ensures
            final(reminders)@ == if old(reminders)@.contains_key(reminder_name@) {
                old(reminders)@.insert(
                    reminder_name@,
                    old(reminders)@[reminder_name@].updated(update@),
                )
            } else {
                old(reminders)@
            },
            final(reminders).listing() == if has_key(old(reminders).listing(), reminder_name@) {
                placed(
                    old(reminders).listing(),
                    reminder_name@,
                    old(reminders)@[reminder_name@].updated(update@),
                )
            } else {
                old(reminders).listing()
            },
    {
        reminders.apply_update(reminder_name, &update);
    }
}

/// A reminder that was created is read back as it was given: every field
/// that the creator supplied is unchanged, but that of the two cadence fields
/// only the one of the kind of the reminder is kept; the next fire is the
/// text of the first fire computed at creation and reads as that fire, and
/// the last fire is empty. No other reminder of the collection has changed.
pub proof fn lemma_created_reminder_reads_back(
    before: Map<Seq<char>, Record>,
    user_id: u64,
    name: Seq<char>,
    channel_id: u64,
    text: Seq<char>,
    is_per_day: bool,
    days: Option<u32>,
    time: Seq<char>,
    week: Option<Weekday>,
    now: Moment,
)
    requires
        first_fire_text(is_per_day, days, week, time, now) is Ok,
    ensures
        ({
            let next = first_fire_text(is_per_day, days, week, time, now)->Ok_0;
            let cadence = Cadence::of_parts(is_per_day, days, week)->0;
            let after = before.insert(
                name,
                fresh_record(user_id, name, channel_id, text, cadence, time, next),
            );
            &&& Cadence::of_parts(is_per_day, days, week) is Some
            &&& after.contains_key(name)
            &&& after[name].user_id == user_id
            &&& after[name].name == name
            &&& after[name].channel_id == channel_id
            &&& after[name].text == text
            &&& after[name].is_per_day == is_per_day
            &&& is_per_day ==> after[name].days == days && after[name].week is None
            &&& !is_per_day ==> after[name].week == week && after[name].days is None
            &&& after[name].one_cadence()
            &&& Cadence::of_parts(after[name].is_per_day, after[name].days, after[name].week)
                == Some(cadence)
            &&& after[name].time == time
            &&& first_fire_outcome(is_per_day, days, week, time, now) matches Ok(fire)
            &&& fire.text() == Some(after[name].next_reminder)
            &&& Moment::reading(after[name].next_reminder) == Some(fire)
            &&& after[name].before_remind == Seq::<char>::empty()
            &&& forall|other: Seq<char>|
                other != name ==> (after.contains_key(other) <==> before.contains_key(other))
            &&& forall|other: Seq<char>|
                other != name && before.contains_key(other) ==> after[other] == before[other]
        }),
{
}

/// Deleting a reminder twice is deleting it once: after the first deletion
/// the name is gone, and the second changes nothing.
pub proof fn lemma_remove_twice(before: Map<Seq<char>, Record>, name: Seq<char>)
    ensures
        !before.remove(name).contains_key(name),
        before.remove(name).remove(name) == before.remove(name),
{
    assert(before.remove(name).remove(name) =~= before.remove(name));
}

/// An update that names no field leaves a record as it was.
pub proof fn lemma_empty_update(record: Record)
    ensures
        record.updated(Changes::none()) == record,
{
}

} // verus!
