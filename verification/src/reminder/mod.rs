//! The reminder subsystem.

pub mod calendar;
pub mod collection;
pub mod error;
pub mod model;
pub mod schedule;
pub mod task;
pub mod text;
pub mod timestamp;
pub mod utils;
