use ghost_timer::models::timer::{Timer, TimerControl, TimerError, TimerState};
use ghost_timer::time::{Duration, Instant};

fn create_test_timer() -> Timer {
    Timer::new()
}

#[test]
fn start_timer_with_valid_duration() {
    let mut timer = Timer::new();
    assert!(timer.start(Duration::from_secs(60)).is_ok());
    assert!(matches!(timer.state(), TimerState::Running { .. }));
    assert_eq!(timer.original_duration, Duration::from_secs(60));
    assert_eq!(timer.completion_time, None);
}

#[test]
fn start_timer_twice_should_fail() {
    let mut timer = Timer::new();
    timer.start(Duration::from_secs(60)).unwrap();
    let before = timer.state;
    let second = timer.start(Duration::from_secs(30));
    assert!(matches!(second, Err(TimerError::InvalidState(_))));
    assert_eq!(timer.state, before);
    assert_eq!(timer.original_duration, Duration::from_secs(60));
}

#[test]
fn pause_stopped_timer_should_fail() {
    let mut timer = Timer::new();
    assert!(matches!(timer.pause(), Err(TimerError::InvalidState(_))));
    assert!(matches!(timer.state(), TimerState::Stopped));
}

#[test]
fn timer_should_finish_when_countdown_complete() {
    let mut timer = Timer::new();
    let started = Instant::from_nanos(5);
    timer.start_at(Duration::from_secs(3), started).unwrap();

    let just_before = Instant::from_nanos(5 + 2_999_999_999);
    assert!(!timer.tick_at(just_before));
    assert!(matches!(timer.state(), TimerState::Running { .. }));
    assert_eq!(timer.remaining_time_at(just_before), Some(Duration::from_nanos(1)));

    let at_the_end = Instant::from_nanos(5 + 3_000_000_000);
    assert!(timer.tick_at(at_the_end));
    assert!(timer.is_finished());
    assert_eq!(timer.completion_time, Some(at_the_end));
    assert_eq!(timer.remaining_time_at(at_the_end), None);
}

#[test]
fn contract_start_timer_with_valid_duration() {
    let mut timer = create_test_timer();
    let duration = Duration::from_secs(60);
    let now = Instant::from_nanos(42);

    let result = timer.start_at(duration, now);

    assert!(result.is_ok(), "Starting timer with valid duration should succeed");
    assert!(matches!(timer.state(), TimerState::Running { .. }), "Timer should be in running state");
    assert_eq!(
        timer.remaining_time_at(now),
        Some(duration),
        "Remaining time should equal original duration"
    );
}

#[test]
fn contract_start_timer_with_zero_duration_fails() {
    let mut timer = create_test_timer();
    let duration = Duration::from_secs(0);

    let result = timer.start(duration);

    assert!(result.is_err(), "Starting timer with zero duration should fail");
    assert!(matches!(result.unwrap_err(), TimerError::InvalidDuration(_)));
}

#[test]
fn contract_start_timer_with_excessive_duration_fails() {
    let mut timer = create_test_timer();
    let duration = Duration::from_secs(25 * 60 * 60);

    let result = timer.start(duration);

    assert!(result.is_err(), "Starting timer with >24 hour duration should fail");
    assert!(matches!(result.unwrap_err(), TimerError::InvalidDuration(_)));
}

#[test]
fn contract_start_timer_twice_fails() {
    let mut timer = create_test_timer();
    let duration = Duration::from_secs(60);

    timer.start(duration).expect("First start should succeed");
    let result = timer.start(duration);

    assert!(result.is_err(), "Starting timer twice should fail");
    assert!(matches!(result.unwrap_err(), TimerError::InvalidState(_)));
}

#[test]
fn contract_pause_running_timer_succeeds() {
    let mut timer = create_test_timer();
    let duration = Duration::from_secs(60);

    timer.start(duration).expect("Start should succeed");
    let result = timer.pause();

    assert!(result.is_ok(), "Pausing running timer should succeed");
    assert!(matches!(timer.state(), TimerState::Paused { .. }), "Timer should be in paused state");
}

#[test]
fn contract_pause_stopped_timer_fails() {
    let mut timer = create_test_timer();

    let result = timer.pause();

    assert!(result.is_err(), "Pausing stopped timer should fail");
    assert!(matches!(result.unwrap_err(), TimerError::InvalidState(_)));
}

#[test]
fn contract_resume_paused_timer_succeeds() {
    let mut timer = create_test_timer();
    let duration = Duration::from_secs(60);

    timer.start(duration).expect("Start should succeed");
    timer.pause().expect("Pause should succeed");
    let result = timer.resume();

    assert!(result.is_ok(), "Resuming paused timer should succeed");
    assert!(matches!(timer.state(), TimerState::Running { .. }), "Timer should be in running state");
}

#[test]
fn contract_resume_stopped_timer_fails() {
    let mut timer = create_test_timer();

    let result = timer.resume();

    assert!(result.is_err(), "Resuming stopped timer should fail");
    assert!(matches!(result.unwrap_err(), TimerError::InvalidState(_)));
}

#[test]
fn contract_reset_timer_always_succeeds() {
    let mut timer = create_test_timer();

    timer.reset();
    assert!(matches!(timer.state(), TimerState::Stopped), "Reset stopped timer should remain stopped");

    timer.start(Duration::from_secs(60)).expect("Start should succeed");
    timer.reset();
    assert!(matches!(timer.state(), TimerState::Stopped), "Reset running timer should become stopped");

    timer.start(Duration::from_secs(60)).expect("Start should succeed");
    timer.pause().expect("Pause should succeed");
    timer.reset();
    assert!(matches!(timer.state(), TimerState::Stopped), "Reset paused timer should become stopped");
}

#[test]
fn contract_initial_state_is_stopped() {
    let timer = create_test_timer();

    assert!(matches!(timer.state(), TimerState::Stopped), "Initial timer state should be stopped");
    assert_eq!(timer.remaining_time(), None, "Initial remaining time should be None");
    assert!(!timer.is_finished(), "Initial timer should not be finished");
}

#[test]
fn contract_finished_timer_state() {
    let mut timer = create_test_timer();
    let started = Instant::from_nanos(0);

    timer.start_at(Duration::from_millis(1), started).expect("Start should succeed");

    let later = started.saturating_add(Duration::from_millis(10));
    let state_changed = timer.tick_at(later);

    assert!(state_changed, "Tick should return true when timer finishes");
    assert!(timer.is_finished(), "Timer should be finished after timeout");
    assert!(matches!(timer.state(), TimerState::Finished), "State should be Finished");
    assert_eq!(timer.remaining_time(), None, "Finished timer should have no remaining time");
}

#[test]
fn contract_tick_updates_remaining_time() {
    let mut timer = create_test_timer();
    let duration = Duration::from_secs(10);
    let started = Instant::from_nanos(0);

    timer.start_at(duration, started).expect("Start should succeed");

    let initial_remaining =
        timer.remaining_time_at(started).expect("Running timer should have remaining time");

    let later = started.saturating_add(Duration::from_millis(100));
    timer.tick_at(later);

    let updated_remaining =
        timer.remaining_time_at(later).expect("Running timer should still have remaining time");

    assert!(updated_remaining < initial_remaining, "Remaining time should decrease after tick");
}
