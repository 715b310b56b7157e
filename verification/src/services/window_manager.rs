//! The window as the core sees it.

use vstd::prelude::*;
use crate::fraction::Fraction;
use crate::models::config::Color;
use crate::models::display::MonitorInfo;

verus! {

/// Why a window operation was declined.
#[derive(Clone, Debug, PartialEq)]
pub enum WindowError {
    /// A value outside of its range.
    InvalidValue(String),
    PlatformError(String),
    NotSupported(String),
}

/// Opacity, position and visibility of the window, and what is known of the monitors.
pub trait WindowManager {
    /// Sets the opacity: 0 is fully transparent, 1 is opaque. Anything else
    /// is declined as `InvalidValue`.
    fn set_transparency(&mut self, alpha: Fraction) -> Result<(), WindowError>;

    fn transparency(&self) -> Fraction;

    fn set_position(&mut self, x: i32, y: i32) -> Result<(), WindowError>;

    fn position(&self) -> (i32, i32);

    fn set_always_on_top(&mut self, on_top: bool) -> Result<(), WindowError>;

    fn is_always_on_top(&self) -> bool;

    fn set_visible(&mut self, visible: bool);

    fn is_visible(&self) -> bool;

    fn get_monitors(&self) -> Vec<MonitorInfo>;

    fn get_dpi_scale(&self) -> Fraction;
}

/// The colour behind the window, and the text colour that goes with it.
pub trait BackgroundDetector {
    /// The colour behind the window, where it can be told.
    fn sample_background_color(&self) -> Option<Color>;

    /// White for a dark background, black for a light one.
    fn calculate_text_color(&self, background: Color) -> Color;

    fn get_text_color(&self) -> Color;
}

/// What the window reports to the core.
pub trait WindowEvents {
    fn on_position_changed(&self, x: i32, y: i32);

    fn on_mouse_enter(&self);

    fn on_mouse_leave(&self);

    fn on_dpi_changed(&self, new_scale: Fraction);

    /// Returns false to keep the window open.
    fn on_close_requested(&self) -> bool;
}

} // verus!
