//! Recurring reminders: the schedule calculator, the per-owner reminder
//! collections and the poller that decides which reminders to deliver.

pub mod commands;
pub mod reminder;
