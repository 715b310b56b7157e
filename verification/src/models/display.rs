//! Monitors, coordinate conversion and the placing of the window.

use vstd::prelude::*;
use crate::fraction::{
    clamp_to_i32, law_round_trip_loses_at_most_one, law_unit_factor_changes_nothing, scaled,
    truncated_quotient, unscaled, Fraction,
};
use crate::models::config::Color;
use crate::time::{elapsed_between, Clock, Instant};

verus! {

/// The least width and height that a window is taken to have when it is placed.
pub const MIN_WINDOW_EXTENT: i32 = 50;

/// The distance that a placed window keeps from the edges of its monitor.
pub const EDGE_MARGIN: i32 = 50;

/// How long a sample of the background colour stays fresh, in nanoseconds: 5 seconds.
pub const RESAMPLE_INTERVAL_NANOS: u128 = 5_000_000_000;

/// One monitor of the desktop.
#[derive(Debug)]
pub struct MonitorInfo {
    pub handle: String,
    /// Left, top, width and height, in logical pixels.
    pub bounds: (i32, i32, i32, i32),
    pub dpi: u32,
    pub scale_factor: Fraction,
    pub is_primary: bool,
}

/// Classes of pixel density.
#[derive(Clone, Copy, Debug, PartialEq, Eq, Structural)]
pub enum DpiCategory {
    /// Up to 96 DPI.
    Standard,
    /// Up to 144 DPI.
    High,
    /// Up to 192 DPI.
    VeryHigh,
    /// More than 192 DPI.
    Ultra,
}

/// Where on a monitor a window is to be placed.
#[derive(Clone, Copy, Debug, PartialEq, Eq, Structural)]
pub enum PositionHint {
    TopLeft,
    TopRight,
    BottomLeft,
    BottomRight,
    Center,
    Custom(i32, i32),
}

/// What is known of the desktop while the widget runs.
#[derive(Debug)]
pub struct DisplayContext {
    pub monitors: Vec<MonitorInfo>,
    /// Index of the monitor that holds the window.
    pub current_monitor: usize,
    /// The scale factor in force.
    pub dpi_scale: Fraction,
    pub background_color: Option<Color>,
    /// When the background colour was last sampled.
    pub last_background_sample: Option<Instant>,
    /// The clock that `last_background_sample` is read from.
    pub clock: Clock,
}

/// `v`, held to the `i32` range.
fn clamped(v: i64) -> (c: i32)
    ensures
        c == clamp_to_i32(v as int),
{
    if v < -2_147_483_648 {
        i32::MIN
    } else if v > 2_147_483_647 {
        i32::MAX
    } else {
        v as i32
    }
}

/// Half of `v`, rounded toward zero.
fn half(v: i64) -> (h: i64)
    requires
        v > i64::MIN,
    ensures
        h == truncated_quotient(v as int, 2),
{
    if v < 0 {
        -((-v) / 2)
    } else {
        v / 2
    }
}

/// The larger of an extent and the least extent of a window.
pub open spec fn window_extent(extent: int) -> int {
    if extent > MIN_WINDOW_EXTENT {
        extent
    } else {
        MIN_WINDOW_EXTENT as int
    }
}

/// The largest coordinate at which a window of `extent` still ends inside a
/// monitor that begins at `origin` and is `length` long.
pub open spec fn axis_limit(origin: int, length: int, extent: int) -> int {
    origin + length - window_extent(extent)
}

/// `v` raised to `origin` where it lies before it, then lowered to the axis
/// limit where it lies behind that, held to the `i32` range.
pub open spec fn constrained_axis(v: int, origin: int, length: int, extent: int) -> int {
    let raised = if v > origin {
        v
    } else {
        origin
    };
    let limit = axis_limit(origin, length, extent);
    clamp_to_i32(
        if raised < limit {
            raised
        } else {
            limit
        },
    )
}

/// One coordinate of a constrained position.
fn constrain_axis(v: i32, origin: i32, length: i32, extent: i32) -> (c: i32)
    ensures
        c == constrained_axis(v as int, origin as int, length as int, extent as int),
{
    let raised: i64 = if v > origin {
        v as i64
    } else {
        origin as i64
    };
    let room: i64 = if extent > MIN_WINDOW_EXTENT {
        extent as i64
    } else {
        MIN_WINDOW_EXTENT as i64
    };
    let limit: i64 = origin as i64 + length as i64 - room;
    clamped(
        if raised < limit {
            raised
        } else {
            limit
        },
    )
}

impl Clone for MonitorInfo {
    fn clone(&self) -> (copy: MonitorInfo)
        ensures
            copy == *self,
    {
        MonitorInfo {
            handle: self.handle.clone(),
            bounds: self.bounds,
            dpi: self.dpi,
            scale_factor: self.scale_factor,
            is_primary: self.is_primary,
        }
    }
}

impl MonitorInfo {
    pub fn new(
        handle: String,
        bounds: (i32, i32, i32, i32),
        dpi: u32,
        scale_factor: Fraction,
        is_primary: bool,
    ) -> (monitor: MonitorInfo)
        ensures
            monitor == (MonitorInfo { handle, bounds, dpi, scale_factor, is_primary }),
    {
        MonitorInfo { handle, bounds, dpi, scale_factor, is_primary }
    }

    pub fn width(&self) -> (w: i32)
        ensures
            w == self.bounds.2,
    {
        self.bounds.2
    }

    pub fn height(&self) -> (h: i32)
        ensures
            h == self.bounds.3,
    {
        self.bounds.3
    }

    /// The middle of the monitor: its origin plus half its extent, rounded
    /// toward zero, held to the `i32` range.
    pub open spec fn center_point(self) -> (int, int) {
        (
            clamp_to_i32(self.bounds.0 + truncated_quotient(self.bounds.2 as int, 2)),
            clamp_to_i32(self.bounds.1 + truncated_quotient(self.bounds.3 as int, 2)),
        )
    }

    /// The middle of the monitor.
    pub fn center(&self) -> (c: (i32, i32))
        ensures
            (c.0 as int, c.1 as int) == self.center_point(),
    {
        let (x, y, w, h) = self.bounds;
        (clamped(x as i64 + half(w as i64)), clamped(y as i64 + half(h as i64)))
    }

    /// Whether the point lies on the monitor. The left and top edges belong
    /// to it, the right and bottom edges do not.
    pub open spec fn contains(self, x: int, y: int) -> bool {
        &&& self.bounds.0 <= x < self.bounds.0 + self.bounds.2
        &&& self.bounds.1 <= y < self.bounds.1 + self.bounds.3
    }

    /// Whether the point lies on the monitor.
    pub fn contains_point(&self, x: i32, y: i32) -> (inside: bool)
        ensures
            inside == self.contains(x as int, y as int),
    {
        let (mx, my, mw, mh) = self.bounds;
        x >= mx && (x as i64) < mx as i64 + mw as i64 && y >= my && (y as i64) < my as i64
            + mh as i64
    }

    /// The class of the monitor's pixel density.
    pub fn dpi_category(&self) -> (category: DpiCategory)
        ensures
            category == if self.dpi <= 96 {
                DpiCategory::Standard
            } else if self.dpi <= 144 {
                DpiCategory::High
            } else if self.dpi <= 192 {
                DpiCategory::VeryHigh
            } else {
                DpiCategory::Ultra
            },
    {
        if self.dpi <= 96 {
            DpiCategory::Standard
        } else if self.dpi <= 144 {
            DpiCategory::High
        } else if self.dpi <= 192 {
            DpiCategory::VeryHigh
        } else {
            DpiCategory::Ultra
        }
    }
}

impl DpiCategory {
    /// The name of the class.
    pub fn to_string(&self) -> (name: String)
        ensures
            name@ == match *self {
                DpiCategory::Standard => "Standard DPI"@,
                DpiCategory::High => "High DPI"@,
                DpiCategory::VeryHigh => "Very High DPI"@,
                DpiCategory::Ultra => "Ultra High DPI"@,
            },
    {
        match self {
            DpiCategory::Standard => "Standard DPI".to_owned(),
            DpiCategory::High => "High DPI".to_owned(),
            DpiCategory::VeryHigh => "Very High DPI".to_owned(),
            DpiCategory::Ultra => "Ultra High DPI".to_owned(),
        }
    }
}

impl PositionHint {
    /// The position that the hint names on a monitor with `bounds`, for a
    /// window of the given size. Corners keep the edge margin; the centre
    /// rounds toward zero; a custom position is taken as it is.
    pub open spec fn position_on(self, bounds: (i32, i32, i32, i32), width: int, height: int) -> (
        int,
        int,
    ) {
        let (mx, my, mw, mh) = bounds;
        let near_x = mx + EDGE_MARGIN;
        let near_y = my + EDGE_MARGIN;
        let far_x = mx + mw - width - EDGE_MARGIN;
        let far_y = my + mh - height - EDGE_MARGIN;
        match self {
            PositionHint::TopLeft => (clamp_to_i32(near_x), clamp_to_i32(near_y)),
            PositionHint::TopRight => (clamp_to_i32(far_x), clamp_to_i32(near_y)),
            PositionHint::BottomLeft => (clamp_to_i32(near_x), clamp_to_i32(far_y)),
            PositionHint::BottomRight => (clamp_to_i32(far_x), clamp_to_i32(far_y)),
            PositionHint::Center => (
                clamp_to_i32(mx + truncated_quotient(mw - width, 2)),
                clamp_to_i32(my + truncated_quotient(mh - height, 2)),
            ),
            PositionHint::Custom(x, y) => (x as int, y as int),
        }
    }

    /// Where a window of the given size goes on `monitor`, held to the `i32` range.
    pub fn calculate_position(&self, monitor: &MonitorInfo, window_width: i32, window_height: i32) -> (p:
        (i32, i32))
        ensures
            (p.0 as int, p.1 as int) == self.position_on(
                monitor.bounds,
                window_width as int,
                window_height as int,
            ),
    {
        let (mx, my, mw, mh) = monitor.bounds;
        let margin: i64 = EDGE_MARGIN as i64;
        let near_x: i64 = mx as i64 + margin;
        let near_y: i64 = my as i64 + margin;
        let far_x: i64 = mx as i64 + mw as i64 - window_width as i64 - margin;
        let far_y: i64 = my as i64 + mh as i64 - window_height as i64 - margin;
        match self {
            PositionHint::TopLeft => (clamped(near_x), clamped(near_y)),
            PositionHint::TopRight => (clamped(far_x), clamped(near_y)),
            PositionHint::BottomLeft => (clamped(near_x), clamped(far_y)),
            PositionHint::BottomRight => (clamped(far_x), clamped(far_y)),
            PositionHint::Center => (
                clamped(mx as i64 + half(mw as i64 - window_width as i64)),
                clamped(my as i64 + half(mh as i64 - window_height as i64)),
            ),
            PositionHint::Custom(x, y) => (*x, *y),
        }
    }
}

/// Whether `i` is the first monitor that is marked primary.
pub open spec fn is_first_primary(monitors: Seq<MonitorInfo>, i: int) -> bool {
    &&& 0 <= i < monitors.len()
    &&& monitors[i].is_primary
    &&& forall|j: int| 0 <= j < i ==> !(#[trigger] monitors[j]).is_primary
}

/// Whether `i` is the first monitor that the point lies on.
pub open spec fn is_first_containing(monitors: Seq<MonitorInfo>, x: int, y: int, i: int) -> bool {
    &&& 0 <= i < monitors.len()
    &&& monitors[i].contains(x, y)
    &&& forall|j: int| 0 <= j < i ==> !(#[trigger] monitors[j]).contains(x, y)
}

/// Index of the first monitor that is marked primary.
pub open spec fn primary_index_of(monitors: Seq<MonitorInfo>) -> Option<int> {
    if exists|i: int| is_first_primary(monitors, i) {
        Some(choose|i: int| is_first_primary(monitors, i))
    } else {
        None
    }
}

/// Index of the first monitor that the point lies on.
pub open spec fn containing_index(monitors: Seq<MonitorInfo>, x: int, y: int) -> Option<int> {
    if exists|i: int| is_first_containing(monitors, x, y, i) {
        Some(choose|i: int| is_first_containing(monitors, x, y, i))
    } else {
        None
    }
}

/// Whether no monitor is marked primary.
pub open spec fn no_primary(monitors: Seq<MonitorInfo>) -> bool {
    forall|j: int| 0 <= j < monitors.len() ==> !(#[trigger] monitors[j]).is_primary
}

/// Whether the point lies on no monitor.
pub open spec fn on_no_monitor(monitors: Seq<MonitorInfo>, x: int, y: int) -> bool {
    forall|j: int| 0 <= j < monitors.len() ==> !(#[trigger] monitors[j]).contains(x, y)
}

impl DisplayContext {
    /// Whether this is a context as it is made: no monitors, a scale of one,
    /// no sample of the background.
    pub open spec fn is_initial(self) -> bool {
        &&& self.monitors@.len() == 0
        &&& self.current_monitor == 0
        &&& self.dpi_scale@ == 1000
        &&& self.background_color is None
        &&& self.last_background_sample is None
    }

    /// A context with no monitors, a scale of one and a clock of its own.
    pub fn new() -> (context: DisplayContext)
        ensures
            context.is_initial(),
    {
        DisplayContext::with_clock(Clock::new())
    }

    /// A context with no monitors and a scale of one that reads `clock`.
    pub fn with_clock(clock: Clock) -> (context: DisplayContext)
        ensures
            context.is_initial(),
            context.clock == clock,
    {
        DisplayContext {
            monitors: Vec::new(),
            current_monitor: 0,
            dpi_scale: Fraction::one(),
            background_color: None,
            last_background_sample: None,
            clock,
        }
    }

    /// Adds a monitor behind those that are known.
    pub fn add_monitor(&mut self, monitor: MonitorInfo)
        ensures
            final(self).monitors@ == old(self).monitors@.push(monitor),
            final(self).current_monitor == old(self).current_monitor,
            final(self).dpi_scale == old(self).dpi_scale,
            final(self).background_color == old(self).background_color,
            final(self).last_background_sample == old(self).last_background_sample,
            final(self).clock == old(self).clock,
    {
        self.monitors.push(monitor);
    }

    /// Index of the first monitor that is marked primary.
    pub fn primary_index(&self) -> (found: Option<usize>)
        ensures
            match found {
                Some(i) => is_first_primary(self.monitors@, i as int) && primary_index_of(
                    self.monitors@,
                ) == Some(i as int),
                None => no_primary(self.monitors@) && primary_index_of(self.monitors@) is None,
            },
    {
        let mut i: usize = 0;
        while i < self.monitors.len()
            invariant
                i <= self.monitors@.len(),
                forall|j: int| 0 <= j < i ==> !(#[trigger] self.monitors@[j]).is_primary,
            decreases self.monitors@.len() - i,
        {
            if self.monitors[i].is_primary {
                return Some(i);
            }
            i += 1;
        }
        None
    }

    /// The first monitor that is marked primary.
    pub fn primary_monitor(&self) -> (found: Option<&MonitorInfo>)
        ensures
            match found {
                Some(monitor) => primary_index_of(self.monitors@) is Some && *monitor
                    == self.monitors@[primary_index_of(self.monitors@)->0],
                None => no_primary(self.monitors@) && primary_index_of(self.monitors@) is None,
            },
    {
        match self.primary_index() {
            Some(i) => Some(&self.monitors[i]),
            None => None,
        }
    }

    /// The monitor that holds the window, where the index names one.
    pub fn current_monitor(&self) -> (found: Option<&MonitorInfo>)
        ensures
            match found {
                Some(monitor) => self.current_monitor < self.monitors@.len() && *monitor
                    == self.monitors@[self.current_monitor as int],
                None => self.current_monitor >= self.monitors@.len(),
            },
    {
        if self.current_monitor < self.monitors.len() {
            Some(&self.monitors[self.current_monitor])
        } else {
            None
        }
    }

    /// Index of the first monitor that the point lies on.
    pub fn monitor_index_at(&self, x: i32, y: i32) -> (found: Option<usize>)
        ensures
            match found {
                Some(i) => is_first_containing(self.monitors@, x as int, y as int, i as int)
                    && containing_index(self.monitors@, x as int, y as int) == Some(i as int),
                None => on_no_monitor(self.monitors@, x as int, y as int) && containing_index(
                    self.monitors@,
                    x as int,
                    y as int,
                ) is None,
            },
    {
        let mut i: usize = 0;
        while i < self.monitors.len()
            invariant
                i <= self.monitors@.len(),
                forall|j: int| 0 <= j < i ==> !(#[trigger] self.monitors@[j]).contains(x as int, y as int),
            decreases self.monitors@.len() - i,
        {
            if self.monitors[i].contains_point(x, y) {
                return Some(i);
            }
            i += 1;
        }
        None
    }

    /// The first monitor that the point lies on, with its index.
    pub fn monitor_at_point(&self, x: i32, y: i32) -> (found: Option<(usize, &MonitorInfo)>)
        ensures
            match found {
                Some((i, monitor)) => is_first_containing(self.monitors@, x as int, y as int, i as int)
                    && containing_index(self.monitors@, x as int, y as int) == Some(i as int)
                    && *monitor == self.monitors@[i as int],
                None => on_no_monitor(self.monitors@, x as int, y as int) && containing_index(
                    self.monitors@,
                    x as int,
                    y as int,
                ) is None,
            },
    {
        match self.monitor_index_at(x, y) {
            Some(i) => Some((i, &self.monitors[i])),
            None => None,
        }
    }

    /// The context after the window has come to lie at the point: the first
    /// monitor that the point lies on is the current one and its scale factor
    /// is in force. On no monitor, nothing changes.
    pub open spec fn after_move_to(self, x: int, y: int) -> DisplayContext {
        match containing_index(self.monitors@, x, y) {
            Some(i) => DisplayContext {
                current_monitor: i as usize,
                dpi_scale: self.monitors@[i].scale_factor,
                ..self
            },
            None => self,
        }
    }

    /// Makes the first monitor that the point lies on the current one and
    /// takes over its scale factor. On no monitor, nothing changes.
    pub fn update_current_monitor(&mut self, x: i32, y: i32)
        ensures
            *final(self) == old(self).after_move_to(x as int, y as int),
    {
        match self.monitor_index_at(x, y) {
            Some(index) => {
                self.current_monitor = index;
                self.dpi_scale = self.monitors[index].scale_factor;
            },
            None => {},
        }
    }

    /// Whether the background is due for a sample at `now`: it was never
    /// sampled, or 5 whole seconds have passed since the last sample.
    pub open spec fn resample_due(self, now: Instant) -> bool {
        match self.last_background_sample {
            None => true,
            Some(last) => elapsed_between(last, now) >= RESAMPLE_INTERVAL_NANOS,
        }
    }

    /// `should_resample_background`, with the clock reading handed in.
    pub fn should_resample_at(&self, now: Instant) -> (due: bool)
        ensures
            due == self.resample_due(now),
    {
        match self.last_background_sample {
            None => true,
            Some(last) => now.saturating_duration_since(last).as_nanos() >= RESAMPLE_INTERVAL_NANOS,
        }
    }

    /// Whether the background colour is to be sampled again: always before
    /// the first sample, and then once 5 seconds have passed since the last.
    pub fn should_resample_background(&self) -> (due: bool)
        ensures
            self.last_background_sample is None ==> due,
            exists|now: Instant| due == #[trigger] self.resample_due(now),
    {
        let now = self.clock.now();
        self.should_resample_at(now)
    }

    /// The context after a sample of the background gave `color` at `now`.
    pub open spec fn after_sample(self, color: Option<Color>, now: Instant) -> DisplayContext {
        DisplayContext { background_color: color, last_background_sample: Some(now), ..self }
    }

    /// `set_background_color`, with the clock reading handed in.
    pub fn set_background_color_at(&mut self, color: Option<Color>, now: Instant)
        ensures
            *final(self) == old(self).after_sample(color, now),
    {
        self.background_color = color;
        self.last_background_sample = Some(now);
    }

    /// Stores a sample of the background colour and the moment it was taken.
    pub fn set_background_color(&mut self, color: Option<Color>)
        ensures
            exists|now: Instant| *final(self) == #[trigger] old(self).after_sample(color, now),
    {
        let now = self.clock.now();
        self.set_background_color_at(color, now);
    }

    /// Logical coordinates as physical ones: each times the scale in force.
    pub open spec fn to_physical(self, x: int, y: int) -> (int, int) {
        (scaled(x, self.dpi_scale), scaled(y, self.dpi_scale))
    }

    /// Physical coordinates as logical ones: each divided by the scale in force.
    pub open spec fn to_logical(self, x: int, y: int) -> (int, int) {
        (unscaled(x, self.dpi_scale), unscaled(y, self.dpi_scale))
    }

    /// Logical coordinates as physical ones: each times the scale in force,
    /// fraction dropped.
    pub fn logical_to_physical(&self, logical_x: i32, logical_y: i32) -> (p: (i32, i32))
        ensures
            (p.0 as int, p.1 as int) == self.to_physical(logical_x as int, logical_y as int),
    {
        (self.dpi_scale.scale(logical_x), self.dpi_scale.scale(logical_y))
    }

    /// Physical coordinates as logical ones: each divided by the scale in
    /// force, fraction dropped.
    pub fn physical_to_logical(&self, physical_x: i32, physical_y: i32) -> (p: (i32, i32))
        ensures
            (p.0 as int, p.1 as int) == self.to_logical(physical_x as int, physical_y as int),
    {
        (self.dpi_scale.unscale(physical_x), self.dpi_scale.unscale(physical_y))
    }

    /// Whether the point lies on some monitor.
    pub fn is_position_valid(&self, x: i32, y: i32) -> (valid: bool)
        ensures
            valid == !on_no_monitor(self.monitors@, x as int, y as int),
            valid == containing_index(self.monitors@, x as int, y as int) is Some,
    {
        self.monitor_index_at(x, y).is_some()
    }

    /// Index of the monitor that a window at the point is held to: the first
    /// that the point lies on; else the current one; else the first primary
    /// one; else the first of all. None only where no monitor is known.
    pub open spec fn target(self, x: int, y: int) -> Option<int> {
        if containing_index(self.monitors@, x, y) is Some {
            containing_index(self.monitors@, x, y)
        } else if self.current_monitor < self.monitors@.len() {
            Some(self.current_monitor as int)
        } else if primary_index_of(self.monitors@) is Some {
            primary_index_of(self.monitors@)
        } else if self.monitors@.len() > 0 {
            Some(0)
        } else {
            None
        }
    }

    /// Index of the monitor that a window at the point is held to.
    pub fn target_index(&self, x: i32, y: i32) -> (found: Option<usize>)
        ensures
            match found {
                Some(i) => i < self.monitors@.len() && self.target(x as int, y as int) == Some(
                    i as int,
                ),
                None => self.monitors@.len() == 0 && self.target(x as int, y as int) is None,
            },
    {
        match self.monitor_index_at(x, y) {
            Some(i) => {
                return Some(i);
            },
            None => {},
        }
        if self.current_monitor < self.monitors.len() {
            return Some(self.current_monitor);
        }
        match self.primary_index() {
            Some(i) => {
                return Some(i);
            },
            None => {},
        }
        if self.monitors.len() > 0 {
            Some(0)
        } else {
            None
        }
    }

    /// The position of a window of the given size, held to the monitor
    /// `bounds`: each coordinate raised to the monitor's origin, then lowered
    /// so that the window, taken to be at least 50 wide and high, ends inside.
    pub open spec fn constrained_on(
        bounds: (i32, i32, i32, i32),
        x: int,
        y: int,
        width: int,
        height: int,
    ) -> (int, int) {
        (
            constrained_axis(x, bounds.0 as int, bounds.2 as int, width),
            constrained_axis(y, bounds.1 as int, bounds.3 as int, height),
        )
    }

    /// A window position held to the target monitor. With no monitor known,
    /// negative coordinates are raised to zero and nothing else is done.
    pub open spec fn constrained(self, x: int, y: int, width: int, height: int) -> (int, int) {
        match self.target(x, y) {
            Some(i) => DisplayContext::constrained_on(self.monitors@[i].bounds, x, y, width, height),
            None => (
                if x > 0 {
                    x
                } else {
                    0
                },
                if y > 0 {
                    y
                } else {
                    0
                },
            ),
        }
    }

    /// Holds a window position to the target monitor. With no monitor known,
    /// negative coordinates are raised to zero and nothing else is done.
    pub fn constrain_position(&self, x: i32, y: i32, window_width: i32, window_height: i32) -> (p: (
        i32,
        i32,
    ))
        ensures
            (p.0 as int, p.1 as int) == self.constrained(
                x as int,
                y as int,
                window_width as int,
                window_height as int,
            ),
    {
        match self.target_index(x, y) {
            Some(i) => {
                let (mx, my, mw, mh) = self.monitors[i].bounds;
                (constrain_axis(x, mx, mw, window_width), constrain_axis(y, my, mh, window_height))
            },
            None => (
                if x > 0 {
                    x
                } else {
                    0
                },
                if y > 0 {
                    y
                } else {
                    0
                },
            ),
        }
    }
}

impl Default for DisplayContext {
    fn default() -> (context: DisplayContext)
        ensures
            context.is_initial(),
    {
        DisplayContext::new()
    }
}

impl Clone for DisplayContext {
    fn clone(&self) -> (copy: DisplayContext)
        ensures
            copy.monitors@ == self.monitors@,
            copy.current_monitor == self.current_monitor,
            copy.dpi_scale == self.dpi_scale,
            copy.background_color == self.background_color,
            copy.last_background_sample == self.last_background_sample,
            copy.clock == self.clock,
    {
        let monitors = self.monitors.clone();
        assert(monitors@ =~= self.monitors@);
        DisplayContext {
            monitors,
            current_monitor: self.current_monitor,
            dpi_scale: self.dpi_scale,
            background_color: self.background_color,
            last_background_sample: self.last_background_sample,
            clock: self.clock,
        }
    }
}

/// On a monitor that has room for the window, a constrained position lies
/// between the monitor's origin and the last place at which the window, taken
/// to be at least 50 wide and high, still ends inside the monitor. This holds
/// wherever the position was before, however far outside.
pub proof fn law_constrained_position_is_on_monitor(
    bounds: (i32, i32, i32, i32),
    x: i32,
    y: i32,
    width: i32,
    height: i32,
)
    requires
        bounds.2 >= window_extent(width as int),
        bounds.3 >= window_extent(height as int),
    ensures
        ({
            let p = DisplayContext::constrained_on(bounds, x as int, y as int, width as int, height as int);
            &&& bounds.0 <= p.0 <= axis_limit(bounds.0 as int, bounds.2 as int, width as int)
            &&& bounds.1 <= p.1 <= axis_limit(bounds.1 as int, bounds.3 as int, height as int)
        }),
{
}

/// A constrained position never lies behind the last place for the window,
/// whether the monitor has room for the window or not, as long as that place
/// can be expressed.
pub proof fn law_constrained_position_ends_inside(
    bounds: (i32, i32, i32, i32),
    x: i32,
    y: i32,
    width: i32,
    height: i32,
)
    requires
        axis_limit(bounds.0 as int, bounds.2 as int, width as int) >= i32::MIN,
        axis_limit(bounds.1 as int, bounds.3 as int, height as int) >= i32::MIN,
    ensures
        ({
            let p = DisplayContext::constrained_on(bounds, x as int, y as int, width as int, height as int);
            &&& p.0 <= axis_limit(bounds.0 as int, bounds.2 as int, width as int)
            &&& p.1 <= axis_limit(bounds.1 as int, bounds.3 as int, height as int)
        }),
{
}

/// A position that already lies in the allowed range of a monitor is left as it is.
pub proof fn law_position_on_monitor_is_kept(
    bounds: (i32, i32, i32, i32),
    x: i32,
    y: i32,
    width: i32,
    height: i32,
)
    requires
        bounds.0 <= x <= axis_limit(bounds.0 as int, bounds.2 as int, width as int),
        bounds.1 <= y <= axis_limit(bounds.1 as int, bounds.3 as int, height as int),
    ensures
        DisplayContext::constrained_on(bounds, x as int, y as int, width as int, height as int) == (
            x as int,
            y as int,
        ),
{
}

/// A window is held to a monitor exactly where a monitor is known, and the
/// monitor it is held to is one of those known. Where the point lies on a
/// monitor, it is the first such monitor.
pub proof fn law_target_is_a_known_monitor(context: DisplayContext, x: i32, y: i32)
    ensures
        context.target(x as int, y as int) is None <==> context.monitors@.len() == 0,
        context.target(x as int, y as int) is Some ==> 0 <= context.target(x as int, y as int)->0
            < context.monitors@.len(),
        containing_index(context.monitors@, x as int, y as int) is Some ==> is_first_containing(
            context.monitors@,
            x as int,
            y as int,
            context.target(x as int, y as int)->0,
        ),
{
}

/// With a monitor known, a constrained window lies on the monitor it is held
/// to, if that monitor has room for it: between the monitor's origin and the
/// last place at which the window, taken to be at least 50 wide and high,
/// still ends inside. This holds wherever the window was before.
pub proof fn law_constrained_window_lies_on_its_monitor(
    context: DisplayContext,
    x: i32,
    y: i32,
    width: i32,
    height: i32,
)
    requires
        context.monitors@.len() > 0,
        ({
            let bounds = context.monitors@[context.target(x as int, y as int)->0].bounds;
            bounds.2 >= window_extent(width as int) && bounds.3 >= window_extent(height as int)
        }),
    ensures
        ({
            let bounds = context.monitors@[context.target(x as int, y as int)->0].bounds;
            let p = context.constrained(x as int, y as int, width as int, height as int);
            &&& bounds.0 <= p.0 <= bounds.0 + bounds.2 - window_extent(width as int)
            &&& bounds.1 <= p.1 <= bounds.1 + bounds.3 - window_extent(height as int)
        }),
{
    law_target_is_a_known_monitor(context, x, y);
    let bounds = context.monitors@[context.target(x as int, y as int)->0].bounds;
    law_constrained_position_is_on_monitor(bounds, x, y, width, height);
}

/// With no monitor known, constraining raises negative coordinates to zero
/// and leaves the others as they are.
pub proof fn law_without_monitors_only_negatives_move(
    context: DisplayContext,
    x: i32,
    y: i32,
    width: i32,
    height: i32,
)
    requires
        context.monitors@.len() == 0,
    ensures
        ({
            let p = context.constrained(x as int, y as int, width as int, height as int);
            &&& p.0 == if x > 0 { x as int } else { 0 }
            &&& p.1 == if y > 0 { y as int } else { 0 }
        }),
{
    law_target_is_a_known_monitor(context, x, y);
}

/// At a scale of exactly one, logical and physical coordinates are the same,
/// so converting there and back returns the coordinates that were given.
pub proof fn law_round_trip_at_scale_one(context: DisplayContext, x: i32, y: i32)
    requires
        context.dpi_scale@ == 1000,
    ensures
        context.to_physical(x as int, y as int) == (x as int, y as int),
        context.to_logical(x as int, y as int) == (x as int, y as int),
        ({
            let p = context.to_physical(x as int, y as int);
            context.to_logical(p.0, p.1) == (x as int, y as int)
        }),
{
    law_unit_factor_changes_nothing(x, context.dpi_scale);
    law_unit_factor_changes_nothing(y, context.dpi_scale);
}

/// At a scale of one or more, converting logical coordinates to physical ones
/// and back moves each by at most one, and only toward zero, as long as the
/// physical coordinates fit the `i32` range.
pub proof fn law_round_trip_moves_at_most_one(context: DisplayContext, x: i32, y: i32)
    requires
        context.dpi_scale@ >= 1000,
        i32::MIN <= truncated_quotient(x * context.dpi_scale@, 1000) <= i32::MAX,
        i32::MIN <= truncated_quotient(y * context.dpi_scale@, 1000) <= i32::MAX,
    ensures
        ({
            let p = context.to_physical(x as int, y as int);
            let back = context.to_logical(p.0, p.1);
            &&& x >= 0 ==> x - 1 <= back.0 <= x
            &&& x <= 0 ==> x <= back.0 <= x + 1
            &&& y >= 0 ==> y - 1 <= back.1 <= y
            &&& y <= 0 ==> y <= back.1 <= y + 1
        }),
{
    law_round_trip_loses_at_most_one(x, context.dpi_scale);
    law_round_trip_loses_at_most_one(y, context.dpi_scale);
}

} // verus!
