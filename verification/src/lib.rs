//! Core of a small always-on-top countdown widget: the timer state machine,
//! the validated configuration model, display geometry, and the application
//! state that ties them together.
//!
//! Everything here is plain data and verified logic. Of the machine the
//! library reads the monotonic clock and asks whether a sound file exists;
//! windows, painting, hotkeys and the configuration file belong to the host
//! program. Each operation that reads the clock has a twin, named with `_at`,
//! that takes the reading as an argument and says exactly what it does with it.

use vstd::prelude::*;

pub mod fraction;
pub mod models;
pub mod services;
pub mod text;
pub mod time;

pub use models::app_state::AppState;
pub use models::config::Configuration;
pub use models::timer::{Timer, TimerControl, TimerError, TimerState};

verus! {

/// The version of the widget.
pub const VERSION: &'static str = "0.1.0";

/// The name of the widget.
pub const NAME: &'static str = "ghost_timer";

} // verus!
