use ghost_timer::models::timer::{Timer, TimerControl, TimerError, TimerState};
use ghost_timer::time::{Clock, Duration, Instant};

const DAY_NANOS: u128 = 86_400_000_000_000;

fn running(duration: Duration, started: Instant) -> Timer {
    let mut timer = Timer::new();
    timer.start_at(duration, started).unwrap();
    timer
}

#[test]
fn every_valid_duration_starts_and_is_left_whole() {
    let now = Instant::from_nanos(123_456);
    for nanos in [1, 999, 1_000_000, 60_000_000_000, DAY_NANOS - 1, DAY_NANOS] {
        let duration = Duration::from_nanos(nanos);
        let mut timer = Timer::new();
        assert!(timer.start_at(duration, now).is_ok());
        assert_eq!(
            timer.state,
            TimerState::Running { started_at: now, remaining_duration: duration }
        );
        assert_eq!(timer.remaining_time_at(now), Some(duration));
        assert_eq!(timer.original_duration, duration);
    }
}

#[test]
fn invalid_durations_are_declined_from_every_state() {
    let now = Instant::from_nanos(10);
    let mut stopped = Timer::new();
    let mut run = running(Duration::from_secs(5), now);
    let mut paused = running(Duration::from_secs(5), now);
    paused.pause_at(now).unwrap();
    let mut finished = running(Duration::from_secs(5), now);
    assert!(finished.tick_at(Instant::from_nanos(5_000_000_010)));

    for timer in [&mut stopped, &mut run, &mut paused, &mut finished] {
        let before = timer.state;
        let original = timer.original_duration;
        let completion = timer.completion_time;
        for nanos in [0, DAY_NANOS + 1, u128::MAX] {
            let result = timer.start_at(Duration::from_nanos(nanos), now);
            assert!(matches!(result, Err(TimerError::InvalidDuration(_))));
            let result = timer.start(Duration::from_nanos(nanos));
            assert!(matches!(result, Err(TimerError::InvalidDuration(_))));
            assert!(matches!(
                Timer::validate_duration(Duration::from_nanos(nanos)),
                Err(TimerError::InvalidDuration(_))
            ));
        }
        assert_eq!(timer.state, before);
        assert_eq!(timer.original_duration, original);
        assert_eq!(timer.completion_time, completion);
    }
    assert!(Timer::validate_duration(Duration::from_nanos(1)).is_ok());
    assert!(Timer::validate_duration(Duration::from_secs(24 * 60 * 60)).is_ok());
}

#[test]
fn start_on_a_running_or_paused_timer_changes_nothing() {
    let now = Instant::from_nanos(10);
    let later = Instant::from_nanos(20);
    let mut run = running(Duration::from_secs(5), now);
    let before = run.state;
    assert!(matches!(
        run.start_at(Duration::from_secs(9), later),
        Err(TimerError::InvalidState(_))
    ));
    assert_eq!(run.state, before);
    assert_eq!(run.original_duration, Duration::from_secs(5));

    run.pause_at(later).unwrap();
    let before = run.state;
    assert!(matches!(
        run.start_at(Duration::from_secs(9), later),
        Err(TimerError::InvalidState(_))
    ));
    assert!(matches!(run.start(Duration::from_secs(9)), Err(TimerError::InvalidState(_))));
    assert_eq!(run.state, before);
}

#[test]
fn a_finished_timer_can_be_started_again() {
    let now = Instant::from_nanos(0);
    let mut timer = running(Duration::from_secs(1), now);
    let end = Instant::from_nanos(1_000_000_000);
    assert!(timer.tick_at(end));
    assert_eq!(timer.completion_time, Some(end));
    assert!(timer.start_at(Duration::from_secs(2), end).is_ok());
    assert_eq!(
        timer.state,
        TimerState::Running { started_at: end, remaining_duration: Duration::from_secs(2) }
    );
    assert_eq!(timer.completion_time, None);
}

#[test]
fn pause_and_resume_are_guarded_by_the_state() {
    let now = Instant::from_nanos(10);
    let mut timer = Timer::new();
    assert!(matches!(timer.pause_at(now), Err(TimerError::InvalidState(_))));
    assert!(matches!(timer.resume_at(now), Err(TimerError::InvalidState(_))));
    assert!(matches!(timer.resume(), Err(TimerError::InvalidState(_))));
    assert_eq!(timer.state, TimerState::Stopped);

    timer.start_at(Duration::from_secs(5), now).unwrap();
    let before = timer.state;
    assert!(matches!(timer.resume_at(now), Err(TimerError::InvalidState(_))));
    assert_eq!(timer.state, before);

    timer.pause_at(now).unwrap();
    let before = timer.state;
    assert!(matches!(timer.pause_at(now), Err(TimerError::InvalidState(_))));
    assert!(matches!(timer.pause(), Err(TimerError::InvalidState(_))));
    assert_eq!(timer.state, before);

    timer.resume_at(now).unwrap();
    assert!(timer.tick_at(Instant::from_nanos(5_000_000_010)));
    assert!(matches!(timer.pause_at(now), Err(TimerError::InvalidState(_))));
    assert!(matches!(timer.resume_at(now), Err(TimerError::InvalidState(_))));
    assert_eq!(timer.state, TimerState::Finished);
}

#[test]
fn reset_stops_from_every_state() {
    let now = Instant::from_nanos(10);
    let mut finished = running(Duration::from_secs(5), now);
    assert!(finished.tick_at(Instant::from_nanos(6_000_000_000)));
    let mut paused = running(Duration::from_secs(5), now);
    paused.pause_at(now).unwrap();
    for mut timer in [Timer::new(), running(Duration::from_secs(5), now), paused, finished] {
        timer.reset();
        assert_eq!(timer.state, TimerState::Stopped);
        assert_eq!(timer.remaining_time_at(now), None);
        assert_eq!(timer.remaining_time(), None);
        assert_eq!(timer.original_duration, Duration::zero());
        assert_eq!(timer.completion_time, None);
        assert!(!timer.is_finished());
    }
}

#[test]
fn remaining_time_never_grows_while_running() {
    let started = Instant::from_nanos(1_000);
    let timer = running(Duration::from_secs(10), started);
    let mut last = Duration::from_secs(10);
    for step in 0..=120u64 {
        let now = started.saturating_add(Duration::from_millis(step * 100));
        let left = timer.remaining_time_at(now).unwrap();
        assert!(left <= last);
        let expected = Duration::from_secs(10).saturating_sub(Duration::from_millis(step * 100));
        assert_eq!(left, expected);
        last = left;
    }
    assert_eq!(last, Duration::zero());
    assert_eq!(timer.remaining_time_at(Instant::from_nanos(0)), Some(Duration::from_secs(10)));
    assert_eq!(
        Timer::calculate_remaining_time(started, Duration::from_secs(10), Instant::from_nanos(1_001)),
        Duration::from_nanos(9_999_999_999)
    );
}

#[test]
fn tick_finishes_exactly_once() {
    let started = Instant::from_nanos(0);
    let mut timer = running(Duration::from_secs(1), started);
    assert!(!timer.tick_at(Instant::from_nanos(999_999_999)));
    assert!(!timer.is_finished());
    let end = Instant::from_nanos(1_000_000_000);
    assert!(timer.tick_at(end));
    assert_eq!(timer.state, TimerState::Finished);
    assert_eq!(timer.completion_time, Some(end));
    for later in [0, 1_000_000_000, 2_000_000_000, u128::MAX] {
        assert!(!timer.tick_at(Instant::from_nanos(later)));
        assert_eq!(timer.state, TimerState::Finished);
        assert_eq!(timer.completion_time, Some(end));
    }
    assert!(!timer.tick());

    let mut stopped = Timer::new();
    assert!(!stopped.tick_at(end));
    assert!(!stopped.tick());
    let mut paused = running(Duration::from_nanos(1), started);
    paused.pause_at(started).unwrap();
    assert!(!paused.tick_at(Instant::from_nanos(u128::MAX)));
    assert_eq!(paused.state, TimerState::Paused { remaining_duration: Duration::from_nanos(1) });
}

#[test]
fn a_pause_keeps_what_was_left() {
    let started = Instant::from_nanos(0);
    let mut timer = running(Duration::from_secs(60), started);

    let paused_at = Instant::from_nanos(25_000_000_000);
    timer.pause_at(paused_at).unwrap();
    let left = timer.remaining_time_at(paused_at).unwrap();
    assert_eq!(left, Duration::from_secs(35));
    assert!(left <= Duration::from_secs(60));
    assert!(left > Duration::zero());
    assert_eq!(timer.remaining_time_at(Instant::from_nanos(900_000_000_000)), Some(left));

    let resumed_at = Instant::from_nanos(1_000_000_000_000);
    timer.resume_at(resumed_at).unwrap();
    assert_eq!(timer.remaining_time_at(resumed_at), Some(Duration::from_secs(35)));
    let later = resumed_at.saturating_add(Duration::from_secs(5));
    assert_eq!(timer.remaining_time_at(later), Some(Duration::from_secs(30)));
    assert!(!timer.tick_at(later));
    assert!(timer.tick_at(resumed_at.saturating_add(Duration::from_secs(35))));
}

#[test]
fn a_pause_on_the_real_clock_keeps_what_was_left() {
    let mut timer = Timer::new();
    timer.start(Duration::from_secs(60)).unwrap();
    timer.pause().unwrap();
    let paused = timer.remaining_time().unwrap();
    assert!(paused <= Duration::from_secs(60));
    assert!(paused > Duration::zero());
    assert_eq!(timer.remaining_time(), Some(paused));
    timer.resume().unwrap();
    let after = timer.remaining_time().unwrap();
    assert!(after <= paused);
    assert!(after > paused.saturating_sub(Duration::from_secs(1)));
}

#[test]
fn a_pause_past_the_end_leaves_nothing() {
    let started = Instant::from_nanos(0);
    let mut timer = running(Duration::from_secs(1), started);
    timer.pause_at(Instant::from_nanos(5_000_000_000)).unwrap();
    assert_eq!(timer.state, TimerState::Paused { remaining_duration: Duration::zero() });
    timer.resume_at(Instant::from_nanos(6_000_000_000)).unwrap();
    assert!(timer.tick_at(Instant::from_nanos(6_000_000_000)));
}

#[test]
fn timer_errors_are_put_in_words() {
    let mut timer = Timer::new();
    let zero = timer.start(Duration::zero()).unwrap_err();
    assert_eq!(zero.to_string(), "Invalid duration: Duration must be greater than zero");
    let long = timer.start(Duration::from_secs(86_401)).unwrap_err();
    assert_eq!(long.to_string(), "Invalid duration: Duration cannot exceed 24 hours");
    let pause = timer.pause().unwrap_err();
    assert_eq!(pause.to_string(), "Invalid state: Cannot pause timer: timer is not running");
    let resume = timer.resume().unwrap_err();
    assert_eq!(resume.to_string(), "Invalid state: Cannot resume timer: timer is not paused");
    timer.start(Duration::from_secs(1)).unwrap();
    let again = timer.start(Duration::from_secs(1)).unwrap_err();
    assert_eq!(
        again.to_string(),
        "Invalid state: Cannot start timer: timer is already running or paused"
    );
}

#[test]
fn a_clock_never_runs_backwards() {
    let clock = Clock::new();
    let mut last = clock.now();
    for _ in 0..10_000 {
        let now = clock.now();
        assert!(now >= last);
        last = now;
    }
    let timer = Timer::with_clock(clock);
    assert_eq!(timer.state, TimerState::Stopped);
}
