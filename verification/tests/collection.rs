use discord_bot_rs::reminder::collection::RemindersMap;
use discord_bot_rs::reminder::model::{ReminderData, ReminderUpdate, Weekday};

fn record(name: &str, text: &str) -> ReminderData {
    ReminderData {
        user_id: 7,
        name: name.to_string(),
        channel_id: 70,
        text: text.to_string(),
        is_per_day: true,
        days: Some(2),
        time: "09:00:00".to_string(),
        week: None,
        next_reminder: "2024-01-02 09:00:00+00:00".to_string(),
        before_remind: String::new(),
    }
}

fn keys(map: &RemindersMap) -> Vec<String> {
    (0..map.len()).map(|i| map.key_at(i).clone()).collect()
}

#[test]
fn new_collection_is_empty() {
    let map = RemindersMap::new();
    assert_eq!(map.len(), 0);
    assert!(map.is_empty());
    assert!(!map.contains_key("a"));
    assert_eq!(map.get("a"), None);
}

#[test]
fn insert_then_get_returns_the_record() {
    let mut map = RemindersMap::new();
    map.insert("a".to_string(), record("a", "first"));
    map.insert("b".to_string(), record("b", "second"));
    assert_eq!(map.len(), 2);
    assert!(!map.is_empty());
    assert!(map.contains_key("a"));
    assert_eq!(map.get("a"), Some(&record("a", "first")));
    assert_eq!(map.get("b"), Some(&record("b", "second")));
    assert_eq!(map.get("c"), None);
    assert_eq!(map.get("A"), None);
    assert_eq!(map.get(""), None);
}

#[test]
fn insert_under_a_key_that_is_there_overwrites() {
    let mut map = RemindersMap::new();
    map.insert("a".to_string(), record("a", "first"));
    map.insert("b".to_string(), record("b", "second"));
    map.insert("a".to_string(), record("a", "third"));
    assert_eq!(map.len(), 2);
    assert_eq!(map.get("a"), Some(&record("a", "third")));
    assert_eq!(map.get("b"), Some(&record("b", "second")));
    assert_eq!(keys(&map), ["a", "b"]);
}

#[test]
fn collection_keeps_the_order_of_arrival() {
    let mut map = RemindersMap::new();
    for key in ["m", "a", "z", "b"] {
        map.insert(key.to_string(), record(key, key));
    }
    assert_eq!(keys(&map), ["m", "a", "z", "b"]);
    assert_eq!(map.record_at(2), &record("z", "z"));
    map.remove("a");
    assert_eq!(keys(&map), ["m", "z", "b"]);
    map.insert("a".to_string(), record("a", "again"));
    assert_eq!(keys(&map), ["m", "z", "b", "a"]);
}

#[test]
fn remove_returns_the_record_and_takes_it_out() {
    let mut map = RemindersMap::new();
    map.insert("a".to_string(), record("a", "first"));
    map.insert("b".to_string(), record("b", "second"));
    assert_eq!(map.remove("a"), Some(record("a", "first")));
    assert_eq!(map.len(), 1);
    assert!(!map.contains_key("a"));
    assert_eq!(map.get("b"), Some(&record("b", "second")));
    assert_eq!(map.remove("a"), None);
    assert_eq!(map.len(), 1);
    assert_eq!(map.remove("b"), Some(record("b", "second")));
    assert!(map.is_empty());
}

#[test]
fn keys_are_compared_as_whole_texts() {
    let mut map = RemindersMap::new();
    map.insert("water".to_string(), record("water", "1"));
    map.insert("water ".to_string(), record("water ", "2"));
    map.insert("Water".to_string(), record("Water", "3"));
    map.insert("".to_string(), record("", "4"));
    assert_eq!(map.len(), 4);
    assert_eq!(map.get("water").unwrap().text, "1");
    assert_eq!(map.get("water ").unwrap().text, "2");
    assert_eq!(map.get("Water").unwrap().text, "3");
    assert_eq!(map.get("").unwrap().text, "4");
}

#[test]
fn apply_update_changes_the_fields_named() {
    let mut map = RemindersMap::new();
    map.insert("a".to_string(), record("a", "first"));
    map.insert("b".to_string(), record("b", "second"));
    let update = ReminderUpdate {
        text: Some("changed"),
        next_reminder: Some("2024-01-05 09:00:00+00:00"),
        ..Default::default()
    };
    map.apply_update("a", &update);
    let mut expected = record("a", "changed");
    expected.next_reminder = "2024-01-05 09:00:00+00:00".to_string();
    assert_eq!(map.get("a"), Some(&expected));
    assert_eq!(map.get("b"), Some(&record("b", "second")));
    assert_eq!(keys(&map), ["a", "b"]);
}

#[test]
fn apply_update_of_a_key_that_is_not_there_changes_nothing() {
    let mut map = RemindersMap::new();
    map.insert("a".to_string(), record("a", "first"));
    let update = ReminderUpdate { text: Some("changed"), ..Default::default() };
    map.apply_update("b", &update);
    assert_eq!(map.len(), 1);
    assert_eq!(map.get("a"), Some(&record("a", "first")));
    assert_eq!(map.get("b"), None);
}

#[test]
fn apply_update_of_the_name_keeps_the_key() {
    let mut map = RemindersMap::new();
    map.insert("a".to_string(), record("a", "first"));
    let update = ReminderUpdate { name: Some("renamed"), ..Default::default() };
    map.apply_update("a", &update);
    assert_eq!(map.get("a"), Some(&record("renamed", "first")));
    assert_eq!(map.get("renamed"), None);
}

#[test]
fn record_apply_changes_every_field_that_is_named() {
    let mut data = record("a", "first");
    let day = Weekday::Thu;
    let update = ReminderUpdate {
        name: Some("n"),
        channel_id: Some(71),
        text: Some("t"),
        is_per_day: Some(false),
        days: Some(None),
        time: Some("10:00:00"),
        week: Some(Some(&day)),
        next_reminder: Some("next"),
        before_remind: Some("before"),
    };
    data.apply(&update);
    assert_eq!(
        data,
        ReminderData {
            user_id: 7,
            name: "n".to_string(),
            channel_id: 71,
            text: "t".to_string(),
            is_per_day: false,
            days: None,
            time: "10:00:00".to_string(),
            week: Some(Weekday::Thu),
            next_reminder: "next".to_string(),
            before_remind: "before".to_string(),
        }
    );
    let update = ReminderUpdate { days: Some(Some(9)), week: Some(None), ..Default::default() };
    data.apply(&update);
    assert_eq!(data.days, Some(9));
    assert_eq!(data.week, None);
    assert_eq!(data.name, "n");
}

#[test]
fn record_apply_of_the_default_update_changes_nothing() {
    let mut data = record("a", "first");
    data.apply(&ReminderUpdate::default());
    assert_eq!(data, record("a", "first"));
}

#[test]
fn record_clone_is_equal() {
    let data = record("a", "first");
    assert_eq!(data.clone(), data);
}
