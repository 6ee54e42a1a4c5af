//! What the commands of the bot decide before they call the reminder
//! subsystem.

pub mod reminder;
