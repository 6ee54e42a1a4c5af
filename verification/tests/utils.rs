use discord_bot_rs::reminder::collection::RemindersMap;
use discord_bot_rs::reminder::error::ReminderError;
use discord_bot_rs::reminder::model::{ReminderData, ReminderUpdate, Weekday};
use discord_bot_rs::reminder::timestamp::Timestamp;
use discord_bot_rs::reminder::utils::ReminderUtil;

fn stamp(text: &str) -> Timestamp {
    Timestamp::from_text(text).expect("a timestamp")
}

fn keys(map: &RemindersMap) -> Vec<String> {
    (0..map.len()).map(|i| map.key_at(i).clone()).collect()
}

#[test]
fn scenario_per_day_reminder_created_after_the_target_time() {
    let mut map = RemindersMap::new();
    let now = stamp("2024-01-01 10:00:00+00:00");
    let made = ReminderUtil::make_reminder(
        &mut map,
        1,
        "daily",
        2,
        "stand up",
        true,
        Some(1),
        "09:00:00+00:00",
        None,
        &now,
    );
    assert_eq!(made, Ok(()));
    assert_eq!(map.get("daily").unwrap().next_reminder, "2024-01-02 09:00:00+00:00");
}

#[test]
fn scenario_per_week_reminder_created_on_its_day_after_the_target_time() {
    let mut map = RemindersMap::new();
    let now = stamp("2024-01-01 09:00:00+00:00");
    assert_eq!(now.weekday(), Weekday::Mon);
    let made = ReminderUtil::make_reminder(
        &mut map,
        1,
        "weekly",
        2,
        "report",
        false,
        None,
        "08:00:00+00:00",
        Some(&Weekday::Mon),
        &now,
    );
    assert_eq!(made, Ok(()));
    assert_eq!(map.get("weekly").unwrap().next_reminder, "2024-01-08 08:00:00+00:00");
}

#[test]
fn created_reminder_reads_back_as_given() {
    let mut map = RemindersMap::new();
    let now = stamp("2024-03-10 22:00:00+09:00");
    let made = ReminderUtil::make_reminder(
        &mut map,
        11,
        "pills",
        22,
        "take them",
        true,
        Some(3),
        "21:30:00+09:00",
        None,
        &now,
    );
    assert_eq!(made, Ok(()));
    assert_eq!(map.len(), 1);
    assert_eq!(
        map.get("pills"),
        Some(&ReminderData {
            user_id: 11,
            name: "pills".to_string(),
            channel_id: 22,
            text: "take them".to_string(),
            is_per_day: true,
            days: Some(3),
            time: "21:30:00+09:00".to_string(),
            week: None,
            next_reminder: "2024-03-13 21:30:00+09:00".to_string(),
            before_remind: String::new(),
        })
    );
}

#[test]
fn created_reminder_holds_the_cadence_field_of_its_kind_only() {
    let mut map = RemindersMap::new();
    let now = stamp("2024-03-10 22:00:00+00:00");
    let made = ReminderUtil::make_reminder(
        &mut map,
        11,
        "gym",
        22,
        "go",
        false,
        Some(0),
        "07:00:00",
        Some(&Weekday::Tue),
        &now,
    );
    assert_eq!(made, Ok(()));
    let data = map.get("gym").unwrap();
    assert!(!data.is_per_day);
    assert_eq!(data.days, None);
    assert_eq!(data.week, Some(Weekday::Tue));
    assert_eq!(data.next_reminder, "2024-03-12 07:00:00+00:00");
    assert_eq!(data.before_remind, "");
    let made = ReminderUtil::make_reminder(
        &mut map,
        11,
        "pills",
        22,
        "take",
        true,
        Some(3),
        "07:00:00",
        Some(&Weekday::Tue),
        &now,
    );
    assert_eq!(made, Ok(()));
    let data = map.get("pills").unwrap();
    assert!(data.is_per_day);
    assert_eq!(data.days, Some(3));
    assert_eq!(data.week, None);
    assert_eq!(data.next_reminder, "2024-03-13 07:00:00+00:00");
}

#[test]
fn creating_under_a_name_that_is_there_overwrites() {
    let mut map = RemindersMap::new();
    let now = stamp("2024-01-01 10:00:00+00:00");
    ReminderUtil::make_reminder(&mut map, 1, "a", 2, "old", true, Some(1), "09:00:00", None, &now)
        .unwrap();
    ReminderUtil::make_reminder(&mut map, 1, "b", 2, "other", true, Some(1), "09:00:00", None, &now)
        .unwrap();
    ReminderUtil::edit_reminders_json(
        &mut map,
        "a",
        ReminderUpdate { before_remind: Some("2024-01-01 09:00:00+00:00"), ..Default::default() },
    );
    ReminderUtil::make_reminder(&mut map, 1, "a", 3, "new", true, Some(4), "11:00:00", None, &now)
        .unwrap();
    assert_eq!(map.len(), 2);
    let data = map.get("a").unwrap();
    assert_eq!(data.text, "new");
    assert_eq!(data.channel_id, 3);
    assert_eq!(data.days, Some(4));
    assert_eq!(data.next_reminder, "2024-01-01 11:00:00+00:00");
    assert_eq!(data.before_remind, "");
    assert_eq!(map.get("b").unwrap().text, "other");
    assert_eq!(keys(&map), ["a", "b"]);
}

#[test]
fn a_reminder_that_cannot_be_created_leaves_the_collection() {
    let mut map = RemindersMap::new();
    let now = stamp("2024-01-01 10:00:00+00:00");
    ReminderUtil::make_reminder(&mut map, 1, "a", 2, "old", true, Some(1), "09:00:00", None, &now)
        .unwrap();
    let before = map.get("a").unwrap().clone();
    assert_eq!(
        ReminderUtil::make_reminder(&mut map, 1, "a", 2, "x", true, None, "09:00:00", None, &now),
        Err(ReminderError::MissingCadenceParameter)
    );
    assert_eq!(
        ReminderUtil::make_reminder(&mut map, 1, "a", 2, "x", true, Some(0), "09:00:00", None, &now),
        Err(ReminderError::MissingCadenceParameter)
    );
    assert_eq!(
        ReminderUtil::make_reminder(&mut map, 1, "b", 2, "x", false, Some(1), "09:00:00", None, &now),
        Err(ReminderError::MissingCadenceParameter)
    );
    assert_eq!(
        ReminderUtil::make_reminder(&mut map, 1, "b", 2, "x", true, Some(1), "9 am", None, &now),
        Err(ReminderError::InvalidTimeFormat)
    );
    assert_eq!(map.len(), 1);
    assert_eq!(map.get("a"), Some(&before));
}

#[test]
fn a_first_fire_that_cannot_be_written_is_out_of_range() {
    let mut map = RemindersMap::new();
    let now = Timestamp::new(200_000_000, 36_000, 0, 0).unwrap();
    assert_eq!(
        ReminderUtil::make_reminder(&mut map, 1, "a", 2, "x", true, Some(1), "09:00:00", None, &now),
        Err(ReminderError::TimestampOutOfRange)
    );
    let now = stamp("2024-01-01 10:00:00+00:00");
    assert_eq!(
        ReminderUtil::make_reminder(
            &mut map,
            1,
            "a",
            2,
            "x",
            true,
            Some(200_000_000),
            "09:00:00",
            None,
            &now
        ),
        Err(ReminderError::TimestampOutOfRange)
    );
    assert_eq!(
        ReminderUtil::make_reminder(
            &mut map,
            1,
            "a",
            2,
            "x",
            true,
            Some(u32::MAX),
            "09:00:00",
            None,
            &now
        ),
        Err(ReminderError::TimestampOutOfRange)
    );
    assert!(map.is_empty());
}

#[test]
fn store_reminder_writes_the_record_as_given() {
    let mut map = RemindersMap::new();
    let stored = ReminderUtil::store_reminder(
        &mut map,
        5,
        "n",
        6,
        "t",
        false,
        None,
        "time",
        Some(&Weekday::Sun),
        "next".to_string(),
    );
    assert_eq!(stored, Ok(()));
    assert_eq!(
        map.get("n"),
        Some(&ReminderData {
            user_id: 5,
            name: "n".to_string(),
            channel_id: 6,
            text: "t".to_string(),
            is_per_day: false,
            days: None,
            time: "time".to_string(),
            week: Some(Weekday::Sun),
            next_reminder: "next".to_string(),
            before_remind: String::new(),
        })
    );
}

#[test]
fn store_reminder_keeps_one_cadence_field() {
    let mut map = RemindersMap::new();
    let stored = ReminderUtil::store_reminder(
        &mut map,
        5,
        "d",
        6,
        "t",
        true,
        Some(4),
        "time",
        Some(&Weekday::Sun),
        "next".to_string(),
    );
    assert_eq!(stored, Ok(()));
    let data = map.get("d").unwrap();
    assert_eq!((data.is_per_day, data.days, data.week), (true, Some(4), None));
    let stored = ReminderUtil::store_reminder(
        &mut map,
        5,
        "w",
        6,
        "t",
        false,
        Some(4),
        "time",
        Some(&Weekday::Sun),
        "next".to_string(),
    );
    assert_eq!(stored, Ok(()));
    let data = map.get("w").unwrap();
    assert_eq!((data.is_per_day, data.days, data.week), (false, None, Some(Weekday::Sun)));
}

#[test]
fn store_reminder_without_its_cadence_field_stores_nothing() {
    let mut map = RemindersMap::new();
    for (is_per_day, days, week) in [
        (true, None, Some(&Weekday::Mon)),
        (true, Some(0), None),
        (false, Some(3), None),
        (false, None, None),
    ] {
        assert_eq!(
            ReminderUtil::store_reminder(
                &mut map,
                5,
                "n",
                6,
                "t",
                is_per_day,
                days,
                "time",
                week,
                "next".to_string()
            ),
            Err(ReminderError::MissingCadenceParameter)
        );
    }
    assert!(map.is_empty());
}

#[test]
fn deleting_twice_is_deleting_once() {
    let mut map = RemindersMap::new();
    let now = stamp("2024-01-01 10:00:00+00:00");
    ReminderUtil::make_reminder(&mut map, 1, "a", 2, "x", true, Some(1), "09:00:00", None, &now)
        .unwrap();
    ReminderUtil::make_reminder(&mut map, 1, "b", 2, "y", true, Some(1), "09:00:00", None, &now)
        .unwrap();
    ReminderUtil::remove_reminder(&mut map, "a");
    assert!(!map.contains_key("a"));
    assert_eq!(keys(&map), ["b"]);
    ReminderUtil::remove_reminder(&mut map, "a");
    assert!(!map.contains_key("a"));
    assert_eq!(keys(&map), ["b"]);
    assert_eq!(map.get("b").unwrap().text, "y");
}

#[test]
fn deleting_from_an_empty_collection_changes_nothing() {
    let mut map = RemindersMap::new();
    ReminderUtil::remove_reminder(&mut map, "a");
    assert!(map.is_empty());
}

#[test]
fn edit_changes_only_the_fields_that_are_present() {
    let mut map = RemindersMap::new();
    let now = stamp("2024-01-01 10:00:00+00:00");
    ReminderUtil::make_reminder(&mut map, 1, "a", 2, "x", true, Some(1), "09:00:00", None, &now)
        .unwrap();
    let before = map.get("a").unwrap().clone();
    ReminderUtil::edit_reminders_json(
        &mut map,
        "a",
        ReminderUpdate {
            next_reminder: Some("2024-01-03 09:00:00+00:00"),
            before_remind: Some("2024-01-02 09:00:04+00:00"),
            ..Default::default()
        },
    );
    let after = map.get("a").unwrap();
    assert_eq!(after.next_reminder, "2024-01-03 09:00:00+00:00");
    assert_eq!(after.before_remind, "2024-01-02 09:00:04+00:00");
    assert_eq!(
        (after.user_id, &after.name, after.channel_id, &after.text),
        (before.user_id, &before.name, before.channel_id, &before.text)
    );
    assert_eq!(
        (after.is_per_day, after.days, &after.time, after.week),
        (before.is_per_day, before.days, &before.time, before.week)
    );
}

#[test]
fn edit_of_a_name_that_is_not_there_is_silent() {
    let mut map = RemindersMap::new();
    let now = stamp("2024-01-01 10:00:00+00:00");
    ReminderUtil::make_reminder(&mut map, 1, "a", 2, "x", true, Some(1), "09:00:00", None, &now)
        .unwrap();
    let before = map.get("a").unwrap().clone();
    ReminderUtil::edit_reminders_json(
        &mut map,
        "missing",
        ReminderUpdate { text: Some("changed"), ..Default::default() },
    );
    assert_eq!(map.len(), 1);
    assert_eq!(map.get("a"), Some(&before));
    assert!(!map.contains_key("missing"));
}
