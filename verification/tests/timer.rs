use ghost_timer::models::timer::{Timer, TimerControl, TimerError, TimerState};
use ghost_timer::time::{Duration, Instant};

#[test]
fn test_new_timer_is_stopped() {
    let timer = Timer::new();
    assert!(matches!(timer.state, TimerState::Stopped));
    assert_eq!(timer.remaining_time(), None);
    assert!(!timer.is_finished());
}

#[test]
fn test_start_valid_duration() {
    let mut timer = Timer::new();
    let duration = Duration::from_secs(60);

    let result = timer.start(duration);
    assert!(result.is_ok());
    assert!(matches!(timer.state, TimerState::Running { .. }));

    let remaining = timer.remaining_time().unwrap();
    assert!(remaining <= duration);
    assert!(remaining >= duration.saturating_sub(Duration::from_millis(100)));
}

#[test]
fn test_start_zero_duration_fails() {
    let mut timer = Timer::new();
    let result = timer.start(Duration::zero());

    assert!(result.is_err());
    assert!(matches!(result.unwrap_err(), TimerError::InvalidDuration(_)));
}

#[test]
fn test_start_excessive_duration_fails() {
    let mut timer = Timer::new();
    let duration = Duration::from_secs(25 * 60 * 60);

    let result = timer.start(duration);
    assert!(result.is_err());
    assert!(matches!(result.unwrap_err(), TimerError::InvalidDuration(_)));
}

#[test]
fn test_pause_and_resume() {
    let mut timer = Timer::new();
    let duration = Duration::from_secs(60);

    timer.start(duration).unwrap();

    let pause_result = timer.pause();
    assert!(pause_result.is_ok());
    assert!(matches!(timer.state, TimerState::Paused { .. }));

    let resume_result = timer.resume();
    assert!(resume_result.is_ok());
    assert!(matches!(timer.state, TimerState::Running { .. }));
}

#[test]
fn test_reset_from_any_state() {
    let mut timer = Timer::new();

    timer.reset();
    assert!(matches!(timer.state, TimerState::Stopped));

    timer.start(Duration::from_secs(60)).unwrap();
    timer.reset();
    assert!(matches!(timer.state, TimerState::Stopped));

    timer.start(Duration::from_secs(60)).unwrap();
    timer.pause().unwrap();
    timer.reset();
    assert!(matches!(timer.state, TimerState::Stopped));
}

#[test]
fn test_timer_completion() {
    let mut timer = Timer::new();
    let started = Instant::from_nanos(1_000);

    timer.start_at(Duration::from_millis(10), started).unwrap();

    let later = started.saturating_add(Duration::from_millis(20));
    let state_changed = timer.tick_at(later);
    assert!(state_changed);
    assert!(timer.is_finished());
    assert!(matches!(timer.state, TimerState::Finished));
}

#[test]
fn test_remaining_time_decreases() {
    let mut timer = Timer::new();
    let duration = Duration::from_secs(10);
    let started = Instant::from_nanos(0);

    timer.start_at(duration, started).unwrap();
    let initial_remaining = timer.remaining_time_at(started).unwrap();

    let later = started.saturating_add(Duration::from_millis(100));
    let updated_remaining = timer.remaining_time_at(later).unwrap();

    assert!(updated_remaining < initial_remaining);
    assert_eq!(updated_remaining, Duration::from_millis(9_900));
}

#[test]
fn remaining_time_on_the_real_clock_never_grows() {
    let mut timer = Timer::new();
    timer.start(Duration::from_secs(10)).unwrap();
    let mut last = timer.remaining_time().unwrap();
    for _ in 0..1000 {
        let next = timer.remaining_time().unwrap();
        assert!(next <= last);
        last = next;
    }
    assert!(last <= Duration::from_secs(10));
    assert!(last > Duration::from_secs(9));
}
