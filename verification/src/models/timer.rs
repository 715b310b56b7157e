//! The countdown timer: a state machine over readings of a monotonic clock.
//!
//! A running timer stores the moment it was started or resumed and the time
//! that was left at that moment. The time left now is always derived from
//! those two and the present reading, so an irregular caller cannot make the
//! countdown drift.

use vstd::prelude::*;
use crate::time::{elapsed_between, Clock, Duration, Instant};

verus! {

/// The longest countdown a timer accepts: 24 hours, in nanoseconds.
pub const MAX_DURATION_NANOS: u128 = 86_400_000_000_000;

/// Where the timer stands.
#[derive(Clone, Copy, Debug, PartialEq, Eq, Structural)]
pub enum TimerState {
    Stopped,
    /// Counting down. `remaining_duration` is what was left at `started_at`.
    Running { started_at: Instant, remaining_duration: Duration },
    /// Halted with `remaining_duration` left.
    Paused { remaining_duration: Duration },
    Finished,
}

/// Why a timer operation was declined.
#[derive(Clone, Debug, PartialEq)]
pub enum TimerError {
    /// The duration is zero or longer than 24 hours.
    InvalidDuration(String),
    /// The operation does not apply in the timer's present state.
    InvalidState(String),
}

impl TimerError {
    /// The error in words.
    pub fn to_string(&self) -> (text: String)
        ensures
            text@ == match *self {
                TimerError::InvalidDuration(msg) => "Invalid duration: "@ + msg@,
                TimerError::InvalidState(msg) => "Invalid state: "@ + msg@,
            },
    {
        match self {
            TimerError::InvalidDuration(msg) => "Invalid duration: ".to_owned().concat(msg.as_str()),
            TimerError::InvalidState(msg) => "Invalid state: ".to_owned().concat(msg.as_str()),
        }
    }
}

/// A duration a timer can be started with: more than zero, at most 24 hours.
pub open spec fn is_valid_duration(duration: Duration) -> bool {
    0 < duration@ <= MAX_DURATION_NANOS
}

/// What is left at `now` of a countdown that had `remaining` left at `started_at`.
pub open spec fn live_remaining(started_at: Instant, remaining: Duration, now: Instant) -> Duration {
    let elapsed = elapsed_between(started_at, now);
    if elapsed >= remaining@ {
        Duration { nanos: 0 }
    } else {
        Duration { nanos: (remaining@ - elapsed) as u128 }
    }
}

impl TimerState {
    /// A timer can be started from `Stopped` and from `Finished`.
    pub open spec fn is_startable(self) -> bool {
        self is Stopped || self is Finished
    }
}

/// The operations of a countdown timer.
pub trait TimerControl {
    /// Starts a countdown of `duration`.
    fn start(&mut self, duration: Duration) -> Result<(), TimerError>;

    /// Halts a running countdown, keeping what is left.
    fn pause(&mut self) -> Result<(), TimerError>;

    /// Takes a paused countdown up again.
    fn resume(&mut self) -> Result<(), TimerError>;

    /// Returns the timer to `Stopped`.
    fn reset(&mut self);

    fn state(&self) -> &TimerState;

    /// The time left, for a running or paused timer.
    fn remaining_time(&self) -> Option<Duration>;

    fn is_finished(&self) -> bool;

    /// Lets a running timer notice that its time is up. Returns whether the state changed.
    fn tick(&mut self) -> bool;
}

/// What a host implements to hear of the timer's progress.
pub trait TimerNotifications {
    fn on_timer_finished(&self);

    fn on_state_changed(&self, old_state: &TimerState, new_state: &TimerState);
}

/// A countdown timer.
#[derive(Clone, Copy, Debug)]
pub struct Timer {
    pub state: TimerState,
    /// The duration of the last start, or zero where there was none since the last reset.
    pub original_duration: Duration,
    /// When the countdown ran out, once it has.
    pub completion_time: Option<Instant>,
    /// The clock that `started_at` and `completion_time` were read from.
    pub clock: Clock,
}

impl Timer {
    /// Whether `start` with `duration` succeeds.
    pub open spec fn can_start(self, duration: Duration) -> bool {
        is_valid_duration(duration) && self.state.is_startable()
    }

    /// The timer after a successful start at `now`.
    pub open spec fn started(self, duration: Duration, now: Instant) -> Timer {
        Timer {
            state: TimerState::Running { started_at: now, remaining_duration: duration },
            original_duration: duration,
            completion_time: None,
            clock: self.clock,
        }
    }

    /// The timer after `start` at `now`: started where that is allowed, else as it was.
    pub open spec fn after_start(self, duration: Duration, now: Instant) -> Timer {
        if self.can_start(duration) {
            self.started(duration, now)
        } else {
            self
        }
    }

    /// The timer after `pause` at `now`.
    pub open spec fn after_pause(self, now: Instant) -> Timer {
        match self.state {
            TimerState::Running { started_at, remaining_duration } => Timer {
                state: TimerState::Paused {
                    remaining_duration: live_remaining(started_at, remaining_duration, now),
                },
                ..self
            },
            _ => self,
        }
    }

    /// The timer after `resume` at `now`.
    pub open spec fn after_resume(self, now: Instant) -> Timer {
        match self.state {
            TimerState::Paused { remaining_duration } => Timer {
                state: TimerState::Running { started_at: now, remaining_duration },
                ..self
            },
            _ => self,
        }
    }

    /// The timer after `reset`.
    pub open spec fn after_reset(self) -> Timer {
        Timer {
            state: TimerState::Stopped,
            original_duration: Duration { nanos: 0 },
            completion_time: None,
            clock: self.clock,
        }
    }

    /// Whether the countdown has run out at `now`: the timer is running and nothing is left.
    pub open spec fn is_due(self, now: Instant) -> bool {
        match self.state {
            TimerState::Running { started_at, remaining_duration } => live_remaining(
                started_at,
                remaining_duration,
                now,
            )@ == 0,
            _ => false,
        }
    }

    /// The timer after `tick` at `now`.
    pub open spec fn after_tick(self, now: Instant) -> Timer {
        if self.is_due(now) {
            Timer { state: TimerState::Finished, completion_time: Some(now), ..self }
        } else {
            self
        }
    }

    /// The time left at `now`.
    pub open spec fn remaining_at(self, now: Instant) -> Option<Duration> {
        match self.state {
            TimerState::Running { started_at, remaining_duration } => Some(
                live_remaining(started_at, remaining_duration, now),
            ),
            TimerState::Paused { remaining_duration } => Some(remaining_duration),
            _ => None,
        }
    }

    /// Whether this is a timer as it is made: stopped, with no duration
    /// started and no completion recorded.
    pub open spec fn is_initial(self) -> bool {
        &&& self.state is Stopped
        &&& self.original_duration@ == 0
        &&& self.completion_time is None
    }

    /// A stopped timer with a clock of its own.
    pub fn new() -> (timer: Timer)
        ensures
            timer.is_initial(),
    {
        Timer::with_clock(Clock::new())
    }

    /// A stopped timer that reads `clock`.
    pub fn with_clock(clock: Clock) -> (timer: Timer)
        ensures
            timer.is_initial(),
            timer.clock == clock,
    {
        Timer {
            state: TimerState::Stopped,
            original_duration: Duration::zero(),
            completion_time: None,
            clock,
        }
    }

    /// Accepts a duration of more than zero and at most 24 hours.
    pub fn validate_duration(duration: Duration) -> (result: Result<(), TimerError>)
        ensures
            result is Ok <==> is_valid_duration(duration),
            result is Err ==> result->Err_0 is InvalidDuration,
    {
        if duration.is_zero() {
            return Err(TimerError::InvalidDuration("Duration must be greater than zero".to_owned()));
        }
        if duration.as_nanos() > MAX_DURATION_NANOS {
            return Err(TimerError::InvalidDuration("Duration cannot exceed 24 hours".to_owned()));
        }
        Ok(())
    }

    /// What is left at `now` of a countdown that had `original_duration` left at `started_at`.
    pub fn calculate_remaining_time(
        started_at: Instant,
        original_duration: Duration,
        now: Instant,
    ) -> (left: Duration)
        ensures
            left == live_remaining(started_at, original_duration, now),
    {
        let elapsed = now.saturating_duration_since(started_at);
        original_duration.saturating_sub(elapsed)
    }

    /// `start`, with the clock reading handed in.
    pub fn start_at(&mut self, duration: Duration, now: Instant) -> (result: Result<(), TimerError>)
        ensures
            old(self).can_start(duration) ==> result is Ok,
            !is_valid_duration(duration) ==> result is Err && result->Err_0 is InvalidDuration,
            is_valid_duration(duration) && !old(self).state.is_startable() ==> result is Err
                && result->Err_0 is InvalidState,
            *final(self) == old(self).after_start(duration, now),
    {
        match Timer::validate_duration(duration) {
            Err(e) => {
                return Err(e);
            },
            Ok(()) => {},
        }
        match self.state {
            TimerState::Stopped | TimerState::Finished => {
                self.state = TimerState::Running { started_at: now, remaining_duration: duration };
                self.original_duration = duration;
                self.completion_time = None;
                Ok(())
            },
            _ => Err(
                TimerError::InvalidState(
                    "Cannot start timer: timer is already running or paused".to_owned(),
                ),
            ),
        }
    }

    /// `pause`, with the clock reading handed in.
    pub fn pause_at(&mut self, now: Instant) -> (result: Result<(), TimerError>)
        ensures
            result is Ok <==> old(self).state is Running,
            result is Err ==> result->Err_0 is InvalidState,
            *final(self) == old(self).after_pause(now),
    {
        match self.state {
            TimerState::Running { started_at, remaining_duration } => {
                let current_remaining = Timer::calculate_remaining_time(
                    started_at,
                    remaining_duration,
                    now,
                );
                self.state = TimerState::Paused { remaining_duration: current_remaining };
                Ok(())
            },
            _ => Err(TimerError::InvalidState("Cannot pause timer: timer is not running".to_owned())),
        }
    }

    /// `resume`, with the clock reading handed in.
    pub fn resume_at(&mut self, now: Instant) -> (result: Result<(), TimerError>)
        ensures
            result is Ok <==> old(self).state is Paused,
            result is Err ==> result->Err_0 is InvalidState,
            *final(self) == old(self).after_resume(now),
    {
        match self.state {
            TimerState::Paused { remaining_duration } => {
                self.state = TimerState::Running { started_at: now, remaining_duration };
                Ok(())
            },
            _ => Err(TimerError::InvalidState("Cannot resume timer: timer is not paused".to_owned())),
        }
    }

    /// `remaining_time`, with the clock reading handed in.
    pub fn remaining_time_at(&self, now: Instant) -> (left: Option<Duration>)
        ensures
            left == self.remaining_at(now),
    {
        match self.state {
            TimerState::Running { started_at, remaining_duration } => Some(
                Timer::calculate_remaining_time(started_at, remaining_duration, now),
            ),
            TimerState::Paused { remaining_duration } => Some(remaining_duration),
            _ => None,
        }
    }

    /// `tick`, with the clock reading handed in.
    pub fn tick_at(&mut self, now: Instant) -> (changed: bool)
        ensures
            changed == old(self).is_due(now),
            *final(self) == old(self).after_tick(now),
    {
        match self.state {
            TimerState::Running { started_at, remaining_duration } => {
                let current_remaining = Timer::calculate_remaining_time(
                    started_at,
                    remaining_duration,
                    now,
                );
                if current_remaining.is_zero() {
                    self.state = TimerState::Finished;
                    self.completion_time = Some(now);
                    true
                } else {
                    false
                }
            },
            _ => false,
        }
    }
}

impl Default for Timer {
    fn default() -> (timer: Timer)
        ensures
            timer.is_initial(),
    {
        Timer::new()
    }
}

impl TimerControl for Timer {
    /// Starts a countdown of `duration` from `Stopped` or `Finished`.
    ///
    /// A duration of zero or of more than 24 hours is declined as
    /// `InvalidDuration`, whatever the state; a valid one on a running or
    /// paused timer as `InvalidState`. A declined call changes nothing.
    fn start(&mut self, duration: Duration) -> (result: Result<(), TimerError>)
        ensures
            old(self).can_start(duration) ==> result is Ok,
            !is_valid_duration(duration) ==> result is Err && result->Err_0 is InvalidDuration,
            is_valid_duration(duration) && !old(self).state.is_startable() ==> result is Err
                && result->Err_0 is InvalidState,
            result is Err ==> *final(self) == *old(self),
            exists|now: Instant| *final(self) == #[trigger] old(self).after_start(duration, now),
    {
        let now = self.clock.now();
        self.start_at(duration, now)
    }

    /// Halts a running countdown with what is left of it. Declined as
    /// `InvalidState`, with nothing changed, unless the timer is running.
    fn pause(&mut self) -> (result: Result<(), TimerError>)
        ensures
            result is Ok <==> old(self).state is Running,
            result is Err ==> result->Err_0 is InvalidState,
            result is Err ==> *final(self) == *old(self),
            exists|now: Instant| *final(self) == #[trigger] old(self).after_pause(now),
    {
        let now = self.clock.now();
        self.pause_at(now)
    }

    /// Takes a paused countdown up again with the time it had left. Declined
    /// as `InvalidState`, with nothing changed, unless the timer is paused.
    fn resume(&mut self) -> (result: Result<(), TimerError>)
        ensures
            result is Ok <==> old(self).state is Paused,
            result is Err ==> result->Err_0 is InvalidState,
            result is Err ==> *final(self) == *old(self),
            exists|now: Instant| *final(self) == #[trigger] old(self).after_resume(now),
    {
        let now = self.clock.now();
        self.resume_at(now)
    }

    /// Returns the timer to `Stopped` and forgets the last duration and completion.
    fn reset(&mut self)
        ensures
            *final(self) == old(self).after_reset(),
    {
        self.state = TimerState::Stopped;
        self.original_duration = Duration::zero();
        self.completion_time = None;
    }

    fn state(&self) -> (state: &TimerState)
        ensures
            *state == self.state,
    {
        &self.state
    }

    /// The time left: derived from the clock for a running timer, the stored
    /// value for a paused one, none otherwise.
    fn remaining_time(&self) -> (left: Option<Duration>)
        ensures
            exists|now: Instant| left == #[trigger] self.remaining_at(now),
    {
        let now = self.clock.now();
        self.remaining_time_at(now)
    }

    fn is_finished(&self) -> (finished: bool)
        ensures
            finished == (self.state is Finished),
    {
        match self.state {
            TimerState::Finished => true,
            _ => false,
        }
    }

    /// Moves a running timer whose time is up to `Finished` and records when.
    /// Returns whether the state changed; a timer that is not running never changes.
    fn tick(&mut self) -> (changed: bool)
        ensures
            exists|now: Instant|
                changed == #[trigger] old(self).is_due(now) && *final(self) == old(self).after_tick(
                    now,
                ),
    {
        let now = self.clock.now();
        self.tick_at(now)
    }
}

/// A valid duration started on a stopped or finished timer is accepted, and
/// at the moment of the start all of it is left.
pub proof fn law_start_leaves_whole_duration(timer: Timer, duration: Duration, now: Instant)
    requires
        is_valid_duration(duration),
        timer.state.is_startable(),
    ensures
        timer.can_start(duration),
        timer.after_start(duration, now).state is Running,
        timer.after_start(duration, now).remaining_at(now) == Some(duration),
{
}

/// A duration of zero or of more than 24 hours is never accepted, and the
/// timer stays as it was, whatever its state.
pub proof fn law_invalid_duration_changes_nothing(timer: Timer, duration: Duration, now: Instant)
    requires
        duration@ == 0 || duration@ > MAX_DURATION_NANOS,
    ensures
        !timer.can_start(duration),
        timer.after_start(duration, now) == timer,
{
}

/// A running or paused timer cannot be started, and the attempt leaves it as it was.
pub proof fn law_start_needs_idle_timer(timer: Timer, duration: Duration, now: Instant)
    requires
        timer.state is Running || timer.state is Paused,
    ensures
        !timer.can_start(duration),
        timer.after_start(duration, now) == timer,
{
}

/// `pause` acts on a running timer only and `resume` on a paused one only;
/// on any other state each leaves the timer as it was.
pub proof fn law_pause_and_resume_guards(timer: Timer, now: Instant)
    ensures
        !(timer.state is Running) ==> timer.after_pause(now) == timer,
        timer.state is Running ==> timer.after_pause(now).state is Paused,
        !(timer.state is Paused) ==> timer.after_resume(now) == timer,
        timer.state is Paused ==> timer.after_resume(now).state is Running,
{
}

/// From every state `reset` leads to `Stopped`, where no time is left.
pub proof fn law_reset_stops(timer: Timer, now: Instant)
    ensures
        timer.after_reset().state is Stopped,
        timer.after_reset().remaining_at(now) is None,
        timer.after_reset().original_duration@ == 0,
        timer.after_reset().completion_time is None,
{
}

/// While a timer runs, what is left never grows: a later reading shows at
/// most what an earlier one did, and never more than was left at the start.
pub proof fn law_remaining_never_grows(timer: Timer, earlier: Instant, later: Instant)
    requires
        timer.state is Running,
        earlier@ <= later@,
    ensures
        timer.remaining_at(earlier) is Some,
        timer.remaining_at(later) is Some,
        timer.remaining_at(later)->Some_0@ <= timer.remaining_at(earlier)->Some_0@,
        timer.remaining_at(earlier)->Some_0@ <= timer.state->Running_remaining_duration@,
{
}

/// A running timer with nothing left finishes on the next tick, which reports
/// the change and records the moment; every tick after that changes nothing.
pub proof fn law_tick_finishes_once(timer: Timer, now: Instant, later: Instant)
    requires
        timer.state is Running,
        timer.remaining_at(now) == Some(Duration { nanos: 0 }),
    ensures
        timer.is_due(now),
        timer.after_tick(now).state is Finished,
        timer.after_tick(now).completion_time == Some(now),
        !timer.after_tick(now).is_due(later),
        timer.after_tick(now).after_tick(later) == timer.after_tick(now),
{
}

/// A tick changes a timer only by finishing one that runs and has nothing left.
pub proof fn law_tick_is_idle_otherwise(timer: Timer, now: Instant)
    requires
        !(timer.state is Running) || timer.remaining_at(now)->Some_0@ > 0,
    ensures
        !timer.is_due(now),
        timer.after_tick(now) == timer,
{
}

/// Pausing keeps what was left at that moment, however long the pause lasts:
/// after `resume` the countdown goes on from the paused value.
pub proof fn law_pause_keeps_remaining(timer: Timer, paused_at: Instant, resumed_at: Instant)
    requires
        timer.state is Running,
    ensures
        timer.after_pause(paused_at).remaining_at(resumed_at) == timer.remaining_at(paused_at),
        timer.after_pause(paused_at).after_resume(resumed_at).remaining_at(resumed_at)
            == timer.remaining_at(paused_at),
{
}

} // verus!
