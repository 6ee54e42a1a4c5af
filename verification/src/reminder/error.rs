//! The ways in which the reminder subsystem fails.

use vstd::prelude::*;

verus! {

/// A failure of the reminder subsystem.
///
/// The library itself returns the first four. The other three are for the
/// code that reads and writes the collections and delivers the messages, so
/// that every failure of a reminder bears one of these names.
#[derive(Clone, Copy, Debug, PartialEq, Eq, Structural)]
pub enum ReminderError {
    /// The time of day is not of the form `HH:MM:SS`.
    InvalidTimeFormat,
    /// The interval of a daily reminder, or the weekday of a weekly one, is
    /// missing; an interval of no days counts as missing.
    MissingCadenceParameter,
    /// An interval and a weekday were given together: a reminder repeats by
    /// one of them only.
    ConflictingCadenceParameters,
    /// The time to fire at lies beyond the dates that can be written.
    TimestampOutOfRange,
    /// A stored collection could not be read.
    CollectionUnreadable,
    /// A collection could not be written.
    IOFailure,
    /// A message could not be delivered.
    DeliveryFailure,
}

impl ReminderError {
    /// The words that describe this failure.
    pub open spec fn wording(self) -> Seq<char> {
        match self {
            ReminderError::InvalidTimeFormat => "the time of day must have the form HH:MM:SS"@,
            ReminderError::MissingCadenceParameter => "an interval of one day or more, or a weekday, must be given"@,
            ReminderError::ConflictingCadenceParameters => "an interval and a weekday cannot both be given"@,
            ReminderError::TimestampOutOfRange => "the time of the reminder is out of range"@,
            ReminderError::CollectionUnreadable => "the stored reminders could not be read"@,
            ReminderError::IOFailure => "the reminders could not be written"@,
            ReminderError::DeliveryFailure => "the message could not be delivered"@,
        }
    }

    /// Describes this failure in words.
    pub fn message(&self) -> (text: String)
        ensures
            text@ == self.wording(),
    {
        match self {
            ReminderError::InvalidTimeFormat => "the time of day must have the form HH:MM:SS".to_owned(),
            ReminderError::MissingCadenceParameter => "an interval of one day or more, or a weekday, must be given".to_owned(),
            ReminderError::ConflictingCadenceParameters => "an interval and a weekday cannot both be given".to_owned(),
            ReminderError::TimestampOutOfRange => "the time of the reminder is out of range".to_owned(),
            ReminderError::CollectionUnreadable => "the stored reminders could not be read".to_owned(),
            ReminderError::IOFailure => "the reminders could not be written".to_owned(),
            ReminderError::DeliveryFailure => "the message could not be delivered".to_owned(),
        }
    }
}

} // verus!
