//! The data the widget works on and the rules that change it.

pub mod app_state;
pub mod config;
pub mod display;
pub mod time_entry;
pub mod timer;
