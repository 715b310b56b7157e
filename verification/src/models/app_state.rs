//! The application state: timer, configuration, display context and the
//! transient state of the user interface, with the operations that the host
//! program calls on them.

use vstd::prelude::*;
use crate::fraction::{clamp_to_i32, Fraction};
use crate::models::config::{ConfigError, Configuration, DisplayConfig, HotkeyAction};
use crate::models::display::{DisplayContext, MonitorInfo};
use crate::models::timer::{is_valid_duration, Timer, TimerControl, TimerError, TimerState};
use crate::services::config_manager::ConfigManager;
use crate::services::window_manager::WindowError;
use crate::time::{elapsed_between, Clock, Duration, Instant};

verus! {

/// The duration that the start/stop hotkey starts with when no countdown has
/// run since the last reset: 5 minutes, in nanoseconds.
pub const DEFAULT_COUNTDOWN_NANOS: u128 = 300_000_000_000;

/// The width that a dragged window is taken to have, in logical pixels.
pub const DRAG_WINDOW_WIDTH: i32 = 200;

/// The height that a dragged window is taken to have, in logical pixels.
pub const DRAG_WINDOW_HEIGHT: i32 = 100;

/// The memory that the widget is built to stay within, in megabytes.
pub const RESIDENT_BUDGET_MB: u64 = 15;

/// State of the user interface that lasts as long as the process and is never stored.
#[derive(Clone, Copy, Debug)]
pub struct UiState {
    pub is_visible: bool,
    pub is_hovered: bool,
    pub is_dragging: bool,
    /// Window position minus pointer position, as they were when the drag began.
    pub drag_offset: Option<(i64, i64)>,
    pub context_menu_open: bool,
    pub settings_window_open: bool,
    pub controls_visible: bool,
    pub last_interaction: Option<Instant>,
    /// The clock that `last_interaction` is read from.
    pub clock: Clock,
}

/// A figure for the memory in use.
#[derive(Clone, Copy, Debug)]
pub struct MemoryInfo {
    pub resident_mb: u64,
}

/// All state of the running widget. The host owns one value of this type and
/// changes it only through its operations.
#[derive(Debug)]
pub struct AppState {
    pub timer: Timer,
    pub config: Configuration,
    pub display_context: DisplayContext,
    pub ui_state: UiState,
    pub is_running: bool,
    /// Set when a countdown has run out, cleared by a reset.
    pub notification_triggered: bool,
    /// Whether the configuration was changed since it was last saved.
    pub config_dirty: bool,
    /// The clock that the operations read.
    pub clock: Clock,
}

impl UiState {
    /// The state at start-up, with a clock of its own: visible, not hovered,
    /// not dragged, nothing open, no interaction yet.
    pub fn new() -> (ui: UiState)
        ensures
            ui.is_initial(),
    {
        UiState::with_clock(Clock::new())
    }

    /// The state at start-up, reading `clock`.
    pub fn with_clock(clock: Clock) -> (ui: UiState)
        ensures
            ui.is_initial(),
            ui.clock == clock,
    {
        UiState {
            is_visible: true,
            is_hovered: false,
            is_dragging: false,
            drag_offset: None,
            context_menu_open: false,
            settings_window_open: false,
            controls_visible: false,
            last_interaction: None,
            clock,
        }
    }

    /// Whether this is the state at start-up.
    pub open spec fn is_initial(self) -> bool {
        &&& self.is_visible
        &&& !self.is_hovered
        &&& !self.is_dragging
        &&& self.drag_offset is None
        &&& !self.context_menu_open
        &&& !self.settings_window_open
        &&& !self.controls_visible
        &&& self.last_interaction is None
    }

    /// The state with an interaction recorded at `now`.
    pub open spec fn touched(self, now: Instant) -> UiState {
        UiState { last_interaction: Some(now), ..self }
    }

    /// The state after the pointer has come over the widget at `now`: hovered,
    /// with controls, and touched; unchanged if it was hovered already.
    pub open spec fn after_mouse_enter(self, now: Instant) -> UiState {
        if !self.is_hovered {
            UiState { is_hovered: true, controls_visible: true, last_interaction: Some(now), ..self }
        } else {
            self
        }
    }

    /// The state after the pointer has left the widget at `now`: no longer
    /// hovered, without controls, and touched; unchanged if it was not
    /// hovered, or if the widget is being dragged.
    pub open spec fn after_mouse_leave(self, now: Instant) -> UiState {
        if self.is_hovered && !self.is_dragging {
            UiState {
                is_hovered: false,
                controls_visible: false,
                last_interaction: Some(now),
                ..self
            }
        } else {
            self
        }
    }

    /// Whether the user is busy with the widget: it is hovered or dragged, or
    /// a menu or the settings are open.
    pub open spec fn interactive(self) -> bool {
        self.is_hovered || self.is_dragging || self.context_menu_open || self.settings_window_open
    }

    /// Whether the user is busy with the widget.
    pub fn is_interactive(&self) -> (busy: bool)
        ensures
            busy == self.interactive(),
    {
        self.is_hovered || self.is_dragging || self.context_menu_open || self.settings_window_open
    }

    /// The time from the last interaction to `now`, if there was one.
    pub open spec fn idle_time(self, now: Instant) -> Option<Duration> {
        match self.last_interaction {
            Some(last) => Some(Duration { nanos: elapsed_between(last, now) as u128 }),
            None => None,
        }
    }

    /// `time_since_interaction`, with the clock reading handed in.
    pub fn time_since_interaction_at(&self, now: Instant) -> (idle: Option<Duration>)
        ensures
            idle == self.idle_time(now),
    {
        match self.last_interaction {
            Some(last) => Some(now.saturating_duration_since(last)),
            None => None,
        }
    }

    /// The time since the last interaction, if there was one.
    pub fn time_since_interaction(&self) -> (idle: Option<Duration>)
        ensures
            idle is Some <==> self.last_interaction is Some,
            exists|now: Instant| idle == #[trigger] self.idle_time(now),
    {
        let now = self.clock.now();
        self.time_since_interaction_at(now)
    }

    /// Whether the widget is to hide itself at `now`: never while the user is
    /// busy with it; else once more than `timeout` has passed since the last
    /// interaction, and at once where there was none.
    pub open spec fn auto_hide_due(self, timeout: Duration, now: Instant) -> bool {
        !self.interactive() && match self.idle_time(now) {
            Some(idle) => idle@ > timeout@,
            None => true,
        }
    }

    /// `should_auto_hide`, with the clock reading handed in.
    pub fn should_auto_hide_at(&self, timeout: Duration, now: Instant) -> (hide: bool)
        ensures
            hide == self.auto_hide_due(timeout, now),
    {
        if self.is_interactive() {
            return false;
        }
        match self.time_since_interaction_at(now) {
            Some(idle) => idle.as_nanos() > timeout.as_nanos(),
            None => true,
        }
    }

    /// Whether the widget is to hide itself for want of interaction.
    pub fn should_auto_hide(&self, timeout: Duration) -> (hide: bool)
        ensures
            self.interactive() ==> !hide,
            !self.interactive() && self.last_interaction is None ==> hide,
            exists|now: Instant| hide == #[trigger] self.auto_hide_due(timeout, now),
    {
        let now = self.clock.now();
        self.should_auto_hide_at(timeout, now)
    }
}

impl Default for UiState {
    fn default() -> (ui: UiState)
        ensures
            ui.is_initial(),
    {
        UiState::new()
    }
}

/// The names of the controls that go with a timer state: `start` where a
/// countdown can be started, `pause` while one runs, `resume` while one is
/// paused, and `reset` in each case.
pub open spec fn controls_for(state: TimerState) -> Seq<Seq<char>> {
    match state {
        TimerState::Stopped | TimerState::Finished => seq!["start"@, "reset"@],
        TimerState::Running { .. } => seq!["pause"@, "reset"@],
        TimerState::Paused { .. } => seq!["resume"@, "reset"@],
    }
}

impl AppState {
    /// Whether this is the state at start-up: a stopped timer, the default
    /// configuration, no monitors, the interface in its initial state,
    /// nothing to save and nothing to announce, and one clock for all parts.
    pub open spec fn is_initial(self) -> bool {
        &&& self.timer.is_initial()
        &&& self.config.is_default()
        &&& self.display_context.is_initial()
        &&& self.ui_state.is_initial()
        &&& self.is_running
        &&& !self.notification_triggered
        &&& !self.config_dirty
        &&& self.timer.clock == self.clock
        &&& self.display_context.clock == self.clock
        &&& self.ui_state.clock == self.clock
    }

    /// The state at start-up.
    pub fn new() -> (app: AppState)
        ensures
            app.is_initial(),
    {
        let clock = Clock::new();
        AppState {
            timer: Timer::with_clock(clock),
            config: Configuration::default(),
            display_context: DisplayContext::with_clock(clock),
            ui_state: UiState::with_clock(clock),
            is_running: true,
            notification_triggered: false,
            config_dirty: false,
            clock,
        }
    }

    /// The state after `start_timer` at `now`: where the timer accepts the
    /// start, it runs and the interaction is recorded; else nothing changes.
    pub open spec fn after_start_timer(self, duration: Duration, now: Instant) -> AppState {
        if self.timer.can_start(duration) {
            AppState {
                timer: self.timer.after_start(duration, now),
                ui_state: self.ui_state.touched(now),
                ..self
            }
        } else {
            self
        }
    }

    /// The state after `pause_timer` at `now`.
    pub open spec fn after_pause_timer(self, now: Instant) -> AppState {
        if self.timer.state is Running {
            AppState {
                timer: self.timer.after_pause(now),
                ui_state: self.ui_state.touched(now),
                ..self
            }
        } else {
            self
        }
    }

    /// The state after `resume_timer` at `now`.
    pub open spec fn after_resume_timer(self, now: Instant) -> AppState {
        if self.timer.state is Paused {
            AppState {
                timer: self.timer.after_resume(now),
                ui_state: self.ui_state.touched(now),
                ..self
            }
        } else {
            self
        }
    }

    /// The state after `reset_timer` at `now`.
    pub open spec fn after_reset_timer(self, now: Instant) -> AppState {
        AppState {
            timer: self.timer.after_reset(),
            notification_triggered: false,
            ui_state: self.ui_state.touched(now),
            ..self
        }
    }

    /// The state after `tick_timer` at `now`: a countdown that has run out is
    /// finished and is to be announced.
    pub open spec fn after_tick_timer(self, now: Instant) -> AppState {
        AppState {
            timer: self.timer.after_tick(now),
            notification_triggered: self.notification_triggered || self.timer.is_due(now),
            ..self
        }
    }

    /// The state after `set_window_visible` at `now`; showing the window
    /// counts as an interaction, hiding it does not.
    pub open spec fn after_set_window_visible(self, visible: bool, now: Instant) -> AppState {
        AppState {
            ui_state: UiState {
                is_visible: visible,
                last_interaction: if visible {
                    Some(now)
                } else {
                    self.ui_state.last_interaction
                },
                ..self.ui_state
            },
            ..self
        }
    }

    /// The opacity of the window: the hover opacity while the widget is
    /// hovered or dragged, the base opacity otherwise.
    pub open spec fn transparency_level(self) -> Fraction {
        if self.ui_state.is_hovered || self.ui_state.is_dragging {
            self.config.display.hover_transparency
        } else {
            self.config.display.transparency
        }
    }

    /// The state after an accepted `set_transparency`: the level that is
    /// shown in the present hover state is `alpha`, and there is something to save.
    pub open spec fn after_set_transparency(self, alpha: Fraction) -> AppState {
        if !alpha.is_unit() {
            self
        } else if self.ui_state.is_hovered {
            AppState {
                config: Configuration {
                    display: DisplayConfig {
                        hover_transparency: alpha,
                        ..self.config.display
                    },
                    ..self.config
                },
                config_dirty: true,
                ..self
            }
        } else {
            AppState {
                config: Configuration {
                    display: DisplayConfig {
                        transparency: alpha,
                        ..self.config.display
                    },
                    ..self.config
                },
                config_dirty: true,
                ..self
            }
        }
    }

    /// The state after `set_window_position`: the position is stored, the
    /// display context follows the window, and there is something to save if
    /// positions are remembered.
    pub open spec fn after_set_window_position(self, x: i32, y: i32) -> AppState {
        AppState {
            config: Configuration {
                display: DisplayConfig { position: (x, y), ..self.config.display },
                ..self.config
            },
            display_context: self.display_context.after_move_to(x as int, y as int),
            config_dirty: self.config_dirty || self.config.behavior.remember_position,
            ..self
        }
    }

    /// The place that a drag to the point ends at: the point, held to the
    /// target monitor for a window of 200 by 100.
    pub open spec fn drag_target(self, x: i32, y: i32) -> (i32, i32) {
        let held = self.display_context.constrained(
            x as int,
            y as int,
            DRAG_WINDOW_WIDTH as int,
            DRAG_WINDOW_HEIGHT as int,
        );
        (held.0 as i32, held.1 as i32)
    }

    /// The state after `drag_window_to`.
    pub open spec fn after_drag_window_to(self, x: i32, y: i32) -> AppState {
        let target = self.drag_target(x, y);
        self.after_set_window_position(target.0, target.1)
    }

    /// The state after `handle_mouse_enter` at `now`.
    pub open spec fn after_mouse_enter(self, now: Instant) -> AppState {
        AppState { ui_state: self.ui_state.after_mouse_enter(now), ..self }
    }

    /// The state after `handle_mouse_leave` at `now`.
    pub open spec fn after_mouse_leave(self, now: Instant) -> AppState {
        AppState { ui_state: self.ui_state.after_mouse_leave(now), ..self }
    }

    /// The state after `handle_drag_start` at `now`: dragging, with the
    /// distance from the pointer to the window stored.
    pub open spec fn after_drag_start(self, x: i32, y: i32, now: Instant) -> AppState {
        AppState {
            ui_state: UiState {
                is_dragging: true,
                drag_offset: Some(
                    (
                        (self.config.display.position.0 - x) as i64,
                        (self.config.display.position.1 - y) as i64,
                    ),
                ),
                last_interaction: Some(now),
                ..self.ui_state
            },
            ..self
        }
    }

    /// The state after `handle_drag_move`: while a drag is under way the
    /// window goes to the pointer plus the stored distance, held to the
    /// `i32` range and then to the target monitor. Without a drag nothing changes.
    pub open spec fn after_drag_move(self, x: i32, y: i32) -> AppState {
        match self.ui_state.drag_offset {
            Some(offset) => self.after_drag_window_to(
                clamp_to_i32(x + offset.0) as i32,
                clamp_to_i32(y + offset.1) as i32,
            ),
            None => self,
        }
    }

    /// The state after `handle_drag_end` at `now`: no longer dragging; the
    /// hover state stays as it is.
    pub open spec fn after_drag_end(self, now: Instant) -> AppState {
        AppState {
            ui_state: UiState {
                is_dragging: false,
                drag_offset: None,
                last_interaction: Some(now),
                ..self.ui_state
            },
            ..self
        }
    }

    /// The duration that the start/stop hotkey starts with: that of the last
    /// start, or 5 minutes where there is none.
    pub open spec fn restart_duration(self) -> Duration {
        if self.timer.original_duration@ == 0 {
            Duration { nanos: DEFAULT_COUNTDOWN_NANOS }
        } else {
            self.timer.original_duration
        }
    }

    /// The state after `action` at `now`. Toggling shows a hidden window and
    /// hides a shown one. Start/stop starts a stopped or finished timer,
    /// pauses a running one and resumes a paused one.
    pub open spec fn after_action(self, action: HotkeyAction, now: Instant) -> AppState {
        match action {
            HotkeyAction::ToggleVisibility => self.after_set_window_visible(
                !self.ui_state.is_visible,
                now,
            ),
            HotkeyAction::StartStop => match self.timer.state {
                TimerState::Stopped | TimerState::Finished => self.after_start_timer(
                    self.restart_duration(),
                    now,
                ),
                TimerState::Running { .. } => self.after_pause_timer(now),
                TimerState::Paused { .. } => self.after_resume_timer(now),
            },
            HotkeyAction::Reset => self.after_reset_timer(now),
        }
    }

    /// The state after `handle_hotkey` at `now`: the action that `keys` asks
    /// for is done; keys that no slot is set to change nothing.
    pub open spec fn after_hotkey(self, keys: Seq<char>, now: Instant) -> AppState {
        match self.config.hotkeys.action_of(keys) {
            Some(action) => self.after_action(action, now),
            None => self,
        }
    }

    /// Whether the controls are shown: the pointer brought them up and the
    /// configuration allows them.
    pub open spec fn controls_shown(self) -> bool {
        self.ui_state.controls_visible && self.config.display.show_controls
    }

    /// The names of the controls on show: those of the timer state, or none
    /// where controls are not shown.
    pub open spec fn visible_controls(self) -> Seq<Seq<char>> {
        if self.controls_shown() {
            controls_for(self.timer.state)
        } else {
            Seq::empty()
        }
    }

    /// `start_timer`, with the clock reading handed in.
    pub fn start_timer_at(&mut self, duration: Duration, now: Instant) -> (result: Result<
        (),
        TimerError,
    >)
        ensures
            old(self).timer.can_start(duration) ==> result is Ok,
            !is_valid_duration(duration) ==> result is Err
                && result->Err_0 is InvalidDuration,
            is_valid_duration(duration) && !old(self).timer.state.is_startable()
                ==> result is Err && result->Err_0 is InvalidState,
            *final(self) == old(self).after_start_timer(duration, now),
    {
        match self.timer.start_at(duration, now) {
            Ok(()) => {
                self.mark_interaction_at(now);
                Ok(())
            },
            Err(e) => Err(e),
        }
    }

    /// Starts a countdown, as `Timer::start` does, and records the interaction.
    pub fn start_timer(&mut self, duration: Duration) -> (result: Result<(), TimerError>)
        ensures
            old(self).timer.can_start(duration) ==> result is Ok,
            !is_valid_duration(duration) ==> result is Err
                && result->Err_0 is InvalidDuration,
            is_valid_duration(duration) && !old(self).timer.state.is_startable()
                ==> result is Err && result->Err_0 is InvalidState,
            result is Err ==> *final(self) == *old(self),
            exists|now: Instant| *final(self) == #[trigger] old(self).after_start_timer(duration, now),
    {
        let now = self.clock.now();
        self.start_timer_at(duration, now)
    }

    /// `pause_timer`, with the clock reading handed in.
    pub fn pause_timer_at(&mut self, now: Instant) -> (result: Result<(), TimerError>)
        ensures
            result is Ok <==> old(self).timer.state is Running,
            result is Err ==> result->Err_0 is InvalidState,
            *final(self) == old(self).after_pause_timer(now),
    {
        match self.timer.pause_at(now) {
            Ok(()) => {
                self.mark_interaction_at(now);
                Ok(())
            },
            Err(e) => Err(e),
        }
    }

    /// Pauses the countdown, as `Timer::pause` does, and records the interaction.
    pub fn pause_timer(&mut self) -> (result: Result<(), TimerError>)
        ensures
            result is Ok <==> old(self).timer.state is Running,
            result is Err ==> result->Err_0 is InvalidState,
            result is Err ==> *final(self) == *old(self),
            exists|now: Instant| *final(self) == #[trigger] old(self).after_pause_timer(now),
    {
        let now = self.clock.now();
        self.pause_timer_at(now)
    }

    /// `resume_timer`, with the clock reading handed in.
    pub fn resume_timer_at(&mut self, now: Instant) -> (result: Result<(), TimerError>)
        ensures
            result is Ok <==> old(self).timer.state is Paused,
            result is Err ==> result->Err_0 is InvalidState,
            *final(self) == old(self).after_resume_timer(now),
    {
        match self.timer.resume_at(now) {
            Ok(()) => {
                self.mark_interaction_at(now);
                Ok(())
            },
            Err(e) => Err(e),
        }
    }

    /// Resumes the countdown, as `Timer::resume` does, and records the interaction.
    pub fn resume_timer(&mut self) -> (result: Result<(), TimerError>)
        ensures
            result is Ok <==> old(self).timer.state is Paused,
            result is Err ==> result->Err_0 is InvalidState,
            result is Err ==> *final(self) == *old(self),
            exists|now: Instant| *final(self) == #[trigger] old(self).after_resume_timer(now),
    {
        let now = self.clock.now();
        self.resume_timer_at(now)
    }

    /// `reset_timer`, with the clock reading handed in.
    pub fn reset_timer_at(&mut self, now: Instant)
        ensures
            *final(self) == old(self).after_reset_timer(now),
    {
        self.timer.reset();
        self.notification_triggered = false;
        self.mark_interaction_at(now);
    }

    /// Stops the timer, withdraws a pending announcement and records the interaction.
    pub fn reset_timer(&mut self)
        ensures
            exists|now: Instant| *final(self) == #[trigger] old(self).after_reset_timer(now),
    {
        let now = self.clock.now();
        self.reset_timer_at(now)
    }

    pub fn timer_state(&self) -> (state: &TimerState)
        ensures
            *state == self.timer.state,
    {
        self.timer.state()
    }

    /// `remaining_time`, with the clock reading handed in.
    pub fn remaining_time_at(&self, now: Instant) -> (left: Option<Duration>)
        ensures
            left == self.timer.remaining_at(now),
    {
        self.timer.remaining_time_at(now)
    }

    /// The time left on the timer, if it is running or paused.
    pub fn remaining_time(&self) -> (left: Option<Duration>)
        ensures
            exists|now: Instant| left == #[trigger] self.timer.remaining_at(now),
    {
        let now = self.clock.now();
        self.remaining_time_at(now)
    }

    pub fn is_timer_finished(&self) -> (finished: bool)
        ensures
            finished == (self.timer.state is Finished),
    {
        self.timer.is_finished()
    }

    /// `tick_timer`, with the clock reading handed in.
    pub fn tick_timer_at(&mut self, now: Instant) -> (changed: bool)
        ensures
            changed == old(self).timer.is_due(now),
            *final(self) == old(self).after_tick_timer(now),
    {
        let changed = self.timer.tick_at(now);
        if changed && self.timer.is_finished() {
            self.notification_triggered = true;
        }
        changed
    }

    /// Lets the timer notice that its time is up, and marks the countdown for
    /// announcement if it is. Returns whether the timer's state changed.
    pub fn tick_timer(&mut self) -> (changed: bool)
        ensures
            exists|now: Instant|
                changed == #[trigger] old(self).timer.is_due(now) && *final(self) == old(
                    self,
                ).after_tick_timer(now),
    {
        let now = self.clock.now();
        self.tick_timer_at(now)
    }

    pub fn was_notification_triggered(&self) -> (triggered: bool)
        ensures
            triggered == self.notification_triggered,
    {
        self.notification_triggered
    }

    pub fn is_window_visible(&self) -> (visible: bool)
        ensures
            visible == self.ui_state.is_visible,
    {
        self.ui_state.is_visible
    }

    /// `set_window_visible`, with the clock reading handed in.
    pub fn set_window_visible_at(&mut self, visible: bool, now: Instant)
        ensures
            *final(self) == old(self).after_set_window_visible(visible, now),
    {
        self.ui_state.is_visible = visible;
        if visible {
            self.mark_interaction_at(now);
        }
    }

    /// Shows or hides the window. Showing it counts as an interaction.
    pub fn set_window_visible(&mut self, visible: bool)
        ensures
            exists|now: Instant|
                *final(self) == #[trigger] old(self).after_set_window_visible(visible, now),
    {
        let now = self.clock.now();
        self.set_window_visible_at(visible, now)
    }

    /// The opacity of the window: the hover opacity while the widget is
    /// hovered or dragged, the base opacity otherwise.
    pub fn window_transparency(&self) -> (level: Fraction)
        ensures
            level == self.transparency_level(),
    {
        if self.ui_state.is_hovered || self.ui_state.is_dragging {
            self.config.display.hover_transparency
        } else {
            self.config.display.transparency
        }
    }

    /// Sets the opacity that is shown in the present hover state: the hover
    /// opacity while the widget is hovered, the base opacity otherwise. A
    /// level outside of 0 to 1 is declined as `InvalidValue` and changes nothing.
    pub fn set_transparency(&mut self, alpha: Fraction) -> (result: Result<(), WindowError>)
        ensures
            result is Ok <==> alpha.is_unit(),
            result is Err ==> result->Err_0 is InvalidValue,
            *final(self) == old(self).after_set_transparency(alpha),
    {
        if !alpha.in_unit_range() {
            return Err(
                WindowError::InvalidValue("Transparency must be between 0.0 and 1.0".to_owned()),
            );
        }
        if self.ui_state.is_hovered {
            self.config.display.hover_transparency = alpha;
        } else {
            self.config.display.transparency = alpha;
        }
        self.mark_config_dirty();
        Ok(())
    }

    pub fn is_always_on_top(&self) -> (on_top: bool)
        ensures
            on_top == self.config.behavior.always_on_top,
    {
        self.config.behavior.always_on_top
    }

    pub fn window_position(&self) -> (position: (i32, i32))
        ensures
            position == self.config.display.position,
    {
        self.config.display.position
    }

    /// Stores the window position, lets the display context follow the
    /// window, and marks the configuration for saving if positions are
    /// remembered. Always succeeds.
    pub fn set_window_position(&mut self, x: i32, y: i32) -> (result: Result<(), WindowError>)
        ensures
            result is Ok,
            *final(self) == old(self).after_set_window_position(x, y),
    {
        self.config.display.position = (x, y);
        self.display_context.update_current_monitor(x, y);
        if self.config.behavior.remember_position {
            self.mark_config_dirty();
        }
        Ok(())
    }

    /// Moves the window to the point, held to the target monitor for a window
    /// of 200 by 100.
    pub fn drag_window_to(&mut self, x: i32, y: i32)
        ensures
            *final(self) == old(self).after_drag_window_to(x, y),
    {
        let target = self.display_context.constrain_position(
            x,
            y,
            DRAG_WINDOW_WIDTH,
            DRAG_WINDOW_HEIGHT,
        );
        let _ = self.set_window_position(target.0, target.1);
    }

    /// `handle_mouse_enter`, with the clock reading handed in.
    pub fn handle_mouse_enter_at(&mut self, now: Instant)
        ensures
            *final(self) == old(self).after_mouse_enter(now),
    {
        if !self.ui_state.is_hovered {
            self.ui_state.is_hovered = true;
            self.ui_state.controls_visible = true;
            self.mark_interaction_at(now);
        }
    }

    /// The pointer has come over the widget: it is hovered and brings up its
    /// controls. On a widget that is hovered already nothing changes.
    pub fn handle_mouse_enter(&mut self)
        ensures
            old(self).ui_state.is_hovered ==> *final(self) == *old(self),
            exists|now: Instant| *final(self) == #[trigger] old(self).after_mouse_enter(now),
    {
        let now = self.clock.now();
        self.handle_mouse_enter_at(now)
    }

    /// `handle_mouse_leave`, with the clock reading handed in.
    pub fn handle_mouse_leave_at(&mut self, now: Instant)
        ensures
            *final(self) == old(self).after_mouse_leave(now),
    {
        if self.ui_state.is_hovered && !self.ui_state.is_dragging {
            self.ui_state.is_hovered = false;
            self.ui_state.controls_visible = false;
            self.mark_interaction_at(now);
        }
    }

    /// The pointer has left the widget: it is no longer hovered and hides its
    /// controls, unless it is being dragged, which keeps it as it is.
    pub fn handle_mouse_leave(&mut self)
        ensures
            !old(self).ui_state.is_hovered || old(self).ui_state.is_dragging ==> *final(self) == *old(
                self,
            ),
            exists|now: Instant| *final(self) == #[trigger] old(self).after_mouse_leave(now),
    {
        let now = self.clock.now();
        self.handle_mouse_leave_at(now)
    }

    /// `handle_drag_start`, with the clock reading handed in.
    pub fn handle_drag_start_at(&mut self, x: i32, y: i32, now: Instant)
        ensures
            *final(self) == old(self).after_drag_start(x, y, now),
    {
        self.ui_state.is_dragging = true;
        let current = self.window_position();
        self.ui_state.drag_offset = Some(
            (current.0 as i64 - x as i64, current.1 as i64 - y as i64),
        );
        self.mark_interaction_at(now);
    }

    /// A drag begins with the pointer at the point: the distance from the
    /// pointer to the window is stored for the moves that follow.
    pub fn handle_drag_start(&mut self, x: i32, y: i32)
        ensures
            exists|now: Instant|
                *final(self) == #[trigger] old(self).after_drag_start(x, y, now),
    {
        let now = self.clock.now();
        self.handle_drag_start_at(x, y, now)
    }

    /// The pointer has moved to the point during a drag: the window follows
    /// at the stored distance, held to the target monitor. Without a drag
    /// nothing changes.
    pub fn handle_drag_move(&mut self, x: i32, y: i32)
        ensures
            *final(self) == old(self).after_drag_move(x, y),
    {
        match self.ui_state.drag_offset {
            Some((offset_x, offset_y)) => {
                let new_x = AppState::offset_coordinate(x, offset_x);
                let new_y = AppState::offset_coordinate(y, offset_y);
                self.drag_window_to(new_x, new_y);
            },
            None => {},
        }
    }

    /// `pointer + offset`, held to the `i32` range.
    fn offset_coordinate(pointer: i32, offset: i64) -> (c: i32)
        ensures
            c == clamp_to_i32(pointer + offset),
    {
        let sum: i128 = pointer as i128 + offset as i128;
        if sum < -2_147_483_648 {
            i32::MIN
        } else if sum > 2_147_483_647 {
            i32::MAX
        } else {
            sum as i32
        }
    }

    /// `handle_drag_end`, with the clock reading handed in.
    pub fn handle_drag_end_at(&mut self, now: Instant)
        ensures
            *final(self) == old(self).after_drag_end(now),
    {
        self.ui_state.is_dragging = false;
        self.ui_state.drag_offset = None;
        self.mark_interaction_at(now);
    }

    /// The drag is over. The hover state stays: a widget that the pointer is
    /// still over keeps its hover opacity.
    pub fn handle_drag_end(&mut self)
        ensures
            exists|now: Instant| *final(self) == #[trigger] old(self).after_drag_end(now),
    {
        let now = self.clock.now();
        self.handle_drag_end_at(now)
    }

    /// Takes over a new scale factor. The logical position stays as it is.
    pub fn handle_dpi_change(&mut self, new_scale: Fraction)
        ensures
            *final(self) == (AppState {
                display_context: DisplayContext { dpi_scale: new_scale, ..old(self).display_context },
                ..*old(self)
            }),
    {
        self.display_context.dpi_scale = new_scale;
    }

    /// Does what `action` asks for, at `now`.
    pub fn perform_action_at(&mut self, action: HotkeyAction, now: Instant)
        ensures
            *final(self) == old(self).after_action(action, now),
    {
        match action {
            HotkeyAction::ToggleVisibility => {
                let visible = self.is_window_visible();
                self.set_window_visible_at(!visible, now);
            },
            HotkeyAction::StartStop => {
                match self.timer.state {
                    TimerState::Stopped | TimerState::Finished => {
                        let duration = if self.timer.original_duration.is_zero() {
                            Duration::from_nanos(DEFAULT_COUNTDOWN_NANOS)
                        } else {
                            self.timer.original_duration
                        };
                        let _ = self.start_timer_at(duration, now);
                    },
                    TimerState::Running { .. } => {
                        let _ = self.pause_timer_at(now);
                    },
                    TimerState::Paused { .. } => {
                        let _ = self.resume_timer_at(now);
                    },
                }
            },
            HotkeyAction::Reset => {
                self.reset_timer_at(now);
            },
        }
    }

    /// `handle_hotkey`, with the clock reading handed in.
    pub fn handle_hotkey_at(&mut self, keys: &str, now: Instant)
        ensures
            *final(self) == old(self).after_hotkey(keys@, now),
    {
        match self.config.hotkeys.action_for(keys) {
            Some(action) => {
                self.perform_action_at(action, now);
            },
            None => {},
        }
    }

    /// A hotkey was pressed. The keys are held against the three slots of the
    /// configuration, and the action of the first slot set to exactly these
    /// keys is done. Keys that no slot is set to are passed over.
    pub fn handle_hotkey(&mut self, keys: &str)
        ensures
            old(self).config.hotkeys.action_of(keys@) is None ==> *final(self) == *old(self),
            exists|now: Instant| *final(self) == #[trigger] old(self).after_hotkey(keys@, now),
    {
        let now = self.clock.now();
        self.handle_hotkey_at(keys, now)
    }

    /// Whether the controls are shown: the pointer brought them up and the
    /// configuration allows them.
    pub fn are_controls_visible(&self) -> (shown: bool)
        ensures
            shown == self.controls_shown(),
    {
        self.ui_state.controls_visible && self.config.display.show_controls
    }

    /// The names of the controls on show, in the order they are shown.
    pub fn get_visible_controls(&self) -> (controls: Vec<String>)
        ensures
            controls@.len() == self.visible_controls().len(),
            forall|i: int| 0 <= i < controls@.len() ==> (#[trigger] controls@[i])@ == self.visible_controls()[i],
    {
        if !self.are_controls_visible() {
            return Vec::new();
        }
        let mut controls: Vec<String> = Vec::new();
        match self.timer.state {
            TimerState::Stopped | TimerState::Finished => {
                controls.push("start".to_owned());
                controls.push("reset".to_owned());
            },
            TimerState::Running { .. } => {
                controls.push("pause".to_owned());
                controls.push("reset".to_owned());
            },
            TimerState::Paused { .. } => {
                controls.push("resume".to_owned());
                controls.push("reset".to_owned());
            },
        }
        controls
    }

    /// A copy of the configuration in force.
    pub fn get_configuration(&self) -> (config: Configuration)
        ensures
            config == self.config,
    {
        self.config.clone()
    }

    /// Puts `config` in force in place of the present configuration and marks
    /// it for saving.
    pub fn apply_configuration(&mut self, config: Configuration)
        ensures
            *final(self) == (AppState { config, config_dirty: true, ..*old(self) }),
    {
        self.config = config;
        self.mark_config_dirty();
    }

    pub fn is_config_dirty(&self) -> (dirty: bool)
        ensures
            dirty == self.config_dirty,
    {
        self.config_dirty
    }

    /// Records that the configuration in force has been saved.
    pub fn mark_config_saved(&mut self)
        ensures
            *final(self) == (AppState { config_dirty: false, ..*old(self) }),
    {
        self.config_dirty = false;
    }

    pub fn is_config_saved(&self) -> (saved: bool)
        ensures
            saved == !self.config_dirty,
    {
        !self.config_dirty
    }

    /// Records the configuration as saved, for a host that has written it
    /// out itself. Always succeeds.
    pub fn save_configuration(&mut self) -> (result: Result<(), ConfigError>)
        ensures
            result is Ok,
            *final(self) == (AppState { config_dirty: false, ..*old(self) }),
    {
        self.mark_config_saved();
        Ok(())
    }

    /// Takes note of how an attempt to save the configuration ended: after a
    /// success there is nothing left to save; after a failure the
    /// configuration stays marked and the error is handed on.
    pub fn finish_save(&mut self, outcome: Result<(), ConfigError>) -> (result: Result<
        (),
        ConfigError,
    >)
        ensures
            result == outcome,
            outcome is Ok ==> *final(self) == (AppState { config_dirty: false, ..*old(self) }),
            outcome is Err ==> *final(self) == *old(self),
    {
        if outcome.is_ok() {
            self.mark_config_saved();
        }
        outcome
    }

    /// Has `manager` save the configuration in force, hands on its answer and
    /// takes note of it. Whether the save succeeds is up to the manager.
    pub fn save_configuration_with<M: ConfigManager>(&mut self, manager: &M) -> (result: Result<
        (),
        ConfigError,
    >)
        ensures
            call_ensures(M::save, (manager, &old(self).config), result),
            *final(self) == old(self).after_save(result),
    {
        let outcome = manager.save(&self.config);
        self.finish_save(outcome)
    }

    /// The state after an attempt to save the configuration ended with
    /// `outcome`: after a success there is nothing left to save; after a
    /// failure the state is as it was.
    pub open spec fn after_save(self, outcome: Result<(), ConfigError>) -> AppState {
        if outcome is Ok {
            AppState { config_dirty: false, ..self }
        } else {
            self
        }
    }

    /// A copy of the list of monitors.
    pub fn get_monitors(&self) -> (monitors: Vec<MonitorInfo>)
        ensures
            monitors@ == self.display_context.monitors@,
    {
        let monitors = self.display_context.monitors.clone();
        assert(monitors@ =~= self.display_context.monitors@);
        monitors
    }

    pub fn get_dpi_scale(&self) -> (scale: Fraction)
        ensures
            scale == self.display_context.dpi_scale,
    {
        self.display_context.dpi_scale
    }

    /// The memory that the widget is built to stay within. A fixed figure,
    /// not a measurement.
    pub fn get_memory_usage(&self) -> (info: MemoryInfo)
        ensures
            info.resident_mb == RESIDENT_BUDGET_MB,
    {
        MemoryInfo { resident_mb: RESIDENT_BUDGET_MB }
    }

    /// Records an interaction at `now`.
    fn mark_interaction_at(&mut self, now: Instant)
        ensures
            *final(self) == (AppState { ui_state: old(self).ui_state.touched(now), ..*old(self) }),
    {
        self.ui_state.last_interaction = Some(now);
    }

    /// Marks the configuration for saving.
    fn mark_config_dirty(&mut self)
        ensures
            *final(self) == (AppState { config_dirty: true, ..*old(self) }),
    {
        self.config_dirty = true;
    }
}

impl Default for AppState {
    fn default() -> (app: AppState)
        ensures
            app.is_initial(),
    {
        AppState::new()
    }
}

/// A second `handle_mouse_enter` in a row changes nothing: the state, and
/// with it the opacity and the controls, is as it was after the first.
pub proof fn law_mouse_enter_is_idempotent(app: AppState, first: Instant, second: Instant)
    ensures
        app.after_mouse_enter(first).after_mouse_enter(second) == app.after_mouse_enter(first),
        app.after_mouse_enter(first).after_mouse_enter(second).transparency_level()
            == app.after_mouse_enter(first).transparency_level(),
        app.after_mouse_enter(first).after_mouse_enter(second).controls_shown()
            == app.after_mouse_enter(first).controls_shown(),
{
}

/// A second `handle_mouse_leave` in a row changes nothing, whether the widget
/// is being dragged or not.
pub proof fn law_mouse_leave_is_idempotent(app: AppState, first: Instant, second: Instant)
    ensures
        app.after_mouse_leave(first).after_mouse_leave(second) == app.after_mouse_leave(first),
        app.after_mouse_leave(first).after_mouse_leave(second).transparency_level()
            == app.after_mouse_leave(first).transparency_level(),
        app.after_mouse_leave(first).after_mouse_leave(second).controls_shown()
            == app.after_mouse_leave(first).controls_shown(),
{
}

/// While the pointer is over the widget it shows its hover opacity, and its
/// controls if the configuration allows them.
pub proof fn law_hover_raises_opacity(app: AppState, now: Instant)
    requires
        !app.ui_state.is_hovered,
    ensures
        app.after_mouse_enter(now).transparency_level() == app.config.display.hover_transparency,
        app.after_mouse_enter(now).controls_shown() == app.config.display.show_controls,
{
}

/// A widget that is being dragged stays as it is when the pointer leaves it,
/// and keeps its hover state when the drag ends.
pub proof fn law_drag_keeps_hover(app: AppState, now: Instant)
    ensures
        app.ui_state.is_dragging ==> app.after_mouse_leave(now) == app,
        app.after_drag_end(now).ui_state.is_hovered == app.ui_state.is_hovered,
        app.after_drag_end(now).ui_state.controls_visible == app.ui_state.controls_visible,
        !app.after_drag_end(now).ui_state.is_dragging,
{
}

/// A countdown is marked for announcement exactly by the tick that finishes
/// it, and the mark stays until the timer is reset.
pub proof fn law_finish_is_announced(app: AppState, now: Instant, later: Instant)
    ensures
        app.timer.is_due(now) ==> app.after_tick_timer(now).notification_triggered
            && app.after_tick_timer(now).timer.state is Finished,
        !app.timer.is_due(now) ==> app.after_tick_timer(now) == app,
        !app.after_reset_timer(later).notification_triggered,
{
}

} // verus!
