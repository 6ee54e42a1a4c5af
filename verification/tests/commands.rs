use discord_bot_rs::commands::reminder::{cadence_fields, CadenceFields, WeekdayParam};
use discord_bot_rs::reminder::collection::RemindersMap;
use discord_bot_rs::reminder::error::ReminderError;
use discord_bot_rs::reminder::model::Weekday;
use discord_bot_rs::reminder::timestamp::Timestamp;
use discord_bot_rs::reminder::utils::ReminderUtil;

#[test]
fn weekday_choice_stands_for_its_weekday() {
    assert_eq!(WeekdayParam::Monday.to_weekday(), Weekday::Mon);
    assert_eq!(WeekdayParam::Tuesday.to_weekday(), Weekday::Tue);
    assert_eq!(WeekdayParam::Wednesday.to_weekday(), Weekday::Wed);
    assert_eq!(WeekdayParam::Thursday.to_weekday(), Weekday::Thu);
    assert_eq!(WeekdayParam::Friday.to_weekday(), Weekday::Fri);
    assert_eq!(WeekdayParam::Saturday.to_weekday(), Weekday::Sat);
    assert_eq!(WeekdayParam::Sunday.to_weekday(), Weekday::Sun);
}

#[test]
fn an_interval_alone_makes_the_reminder_daily() {
    assert_eq!(
        cadence_fields(Some(3), None),
        Ok(CadenceFields { is_per_day: true, days: Some(3), week: None })
    );
    assert_eq!(
        cadence_fields(Some(u32::MAX), None),
        Ok(CadenceFields { is_per_day: true, days: Some(u32::MAX), week: None })
    );
}

#[test]
fn a_weekday_alone_makes_the_reminder_weekly_without_an_interval() {
    assert_eq!(
        cadence_fields(None, Some(WeekdayParam::Sunday)),
        Ok(CadenceFields { is_per_day: false, days: None, week: Some(Weekday::Sun) })
    );
    assert_eq!(
        cadence_fields(None, Some(WeekdayParam::Monday)),
        Ok(CadenceFields { is_per_day: false, days: None, week: Some(Weekday::Mon) })
    );
}

#[test]
fn an_interval_with_a_weekday_is_a_conflict() {
    assert_eq!(
        cadence_fields(Some(3), Some(WeekdayParam::Friday)),
        Err(ReminderError::ConflictingCadenceParameters)
    );
    assert_eq!(
        cadence_fields(Some(0), Some(WeekdayParam::Friday)),
        Err(ReminderError::ConflictingCadenceParameters)
    );
}

#[test]
fn no_interval_and_no_weekday_leaves_the_cadence_missing() {
    assert_eq!(cadence_fields(None, None), Err(ReminderError::MissingCadenceParameter));
    assert_eq!(cadence_fields(Some(0), None), Err(ReminderError::MissingCadenceParameter));
}

#[test]
fn accepted_request_is_stored_with_one_cadence_field() {
    let now = Timestamp::from_text("2024-01-01 10:00:00+00:00").unwrap();
    let mut map = RemindersMap::new();
    let weekly = cadence_fields(None, Some(WeekdayParam::Wednesday)).unwrap();
    ReminderUtil::make_reminder(
        &mut map,
        1,
        "w",
        2,
        "t",
        weekly.is_per_day,
        weekly.days,
        "09:00:00",
        weekly.week.as_ref(),
        &now,
    )
    .unwrap();
    let stored = map.get("w").unwrap();
    assert_eq!((stored.is_per_day, stored.days, stored.week), (false, None, Some(Weekday::Wed)));
    let daily = cadence_fields(Some(2), None).unwrap();
    ReminderUtil::make_reminder(
        &mut map,
        1,
        "d",
        2,
        "t",
        daily.is_per_day,
        daily.days,
        "09:00:00",
        daily.week.as_ref(),
        &now,
    )
    .unwrap();
    let stored = map.get("d").unwrap();
    assert_eq!((stored.is_per_day, stored.days, stored.week), (true, Some(2), None));
}

#[test]
fn each_failure_has_its_words() {
    let all = [
        ReminderError::InvalidTimeFormat,
        ReminderError::MissingCadenceParameter,
        ReminderError::ConflictingCadenceParameters,
        ReminderError::TimestampOutOfRange,
        ReminderError::CollectionUnreadable,
        ReminderError::IOFailure,
        ReminderError::DeliveryFailure,
    ];
    for (i, a) in all.iter().enumerate() {
        assert!(!a.message().is_empty());
        for b in &all[i + 1..] {
            assert_ne!(a.message(), b.message());
        }
    }
    assert_eq!(
        ReminderError::InvalidTimeFormat.message(),
        "the time of day must have the form HH:MM:SS"
    );
    assert_eq!(
        ReminderError::MissingCadenceParameter.message(),
        "an interval of one day or more, or a weekday, must be given"
    );
}
