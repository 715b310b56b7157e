use ghost_timer::fraction::Fraction;
use ghost_timer::models::app_state::AppState;
use ghost_timer::models::timer::TimerState;
use ghost_timer::time::{Duration, Instant};

fn create_test_app() -> AppState {
    AppState::new()
}

#[test]
fn integration_timer_remains_visible_during_video_playback() {
    let mut app = create_test_app();
    let started = Instant::from_nanos(0);

    let timer_duration = Duration::from_secs(120);

    let start_result = app.start_timer_at(timer_duration, started);
    assert!(start_result.is_ok(), "Starting timer should succeed");

    assert!(matches!(app.timer_state(), TimerState::Running { .. }), "Timer should be running");
    assert!(app.is_window_visible(), "Timer window should be visible");

    let transparency = app.window_transparency();
    assert!(
        transparency < Fraction::from_millis(500),
        "Timer should be semi-transparent for non-intrusive display"
    );
    assert!(transparency > Fraction::from_millis(0), "Timer should not be completely transparent");

    assert!(app.is_always_on_top(), "Timer should stay on top of video content");

    let later = started.saturating_add(Duration::from_millis(100));
    let state_changed = app.tick_timer_at(later);
    assert!(!state_changed);

    assert!(matches!(app.timer_state(), TimerState::Running { .. }), "Timer should still be running");
    assert!(app.is_window_visible(), "Timer window should remain visible");

    let remaining = app.remaining_time_at(later).expect("Running timer should have remaining time");
    assert!(remaining < timer_duration, "Remaining time should have decreased");
}

#[test]
fn integration_timer_completion_notification_non_intrusive() {
    let mut app = create_test_app();
    let started = Instant::from_nanos(0);

    let timer_duration = Duration::from_millis(50);
    app.start_timer_at(timer_duration, started).expect("Timer start should succeed");

    let later = started.saturating_add(Duration::from_millis(100));
    let state_changed = app.tick_timer_at(later);

    assert!(state_changed, "Timer completion should trigger state change");
    assert!(app.is_timer_finished(), "Timer should be finished");

    assert!(app.was_notification_triggered(), "Notification should be triggered");

    assert!(app.is_window_visible(), "Window should remain visible after completion");

    app.reset_timer();
    assert!(matches!(app.timer_state(), TimerState::Stopped), "Timer should be reset to stopped");
}

#[test]
fn integration_multiple_monitor_transparency_consistency() {
    let mut app = create_test_app();

    let monitors = app.get_monitors();

    if monitors.len() > 1 {
        for (i, monitor) in monitors.iter().enumerate().take(2) {
            let (x, y, width, height) = monitor.bounds;
            let center_x = x + width / 2;
            let center_y = y + height / 2;

            app.set_window_position(center_x, center_y).expect("Position change should succeed");

            let transparency = app.window_transparency();
            assert!(
                transparency > Fraction::from_millis(0) && transparency < Fraction::from_millis(1000),
                "Transparency should be consistent on monitor {}",
                i
            );

            assert!(app.is_always_on_top(), "Always-on-top should work on monitor {}", i);
        }
    }
}

#[test]
fn integration_dpi_scaling_transparency_preservation() {
    let mut app = create_test_app();

    let initial_scale = app.get_dpi_scale();
    assert!(initial_scale > Fraction::from_millis(0), "DPI scale should be positive");

    app.start_timer(Duration::from_secs(60)).expect("Timer start should succeed");

    let initial_transparency = app.window_transparency();

    let new_scale = Fraction::from_millis(initial_scale.millis() * 1250 / 1000);
    app.handle_dpi_change(new_scale);
    assert_eq!(app.get_dpi_scale(), Fraction::from_millis(1250));

    let post_dpi_transparency = app.window_transparency();
    assert_eq!(
        initial_transparency, post_dpi_transparency,
        "Transparency should be preserved during DPI changes"
    );

    let (x, y) = app.window_position();
    assert!(x >= -1000 && x <= 10000, "X position should remain reasonable after DPI change");
    assert!(y >= -1000 && y <= 10000, "Y position should remain reasonable after DPI change");
}

#[test]
fn integration_window_focus_transparency_behavior() {
    let mut app = create_test_app();

    app.start_timer(Duration::from_secs(60)).expect("Timer start should succeed");

    let base_transparency = app.window_transparency();
    assert!(base_transparency < Fraction::from_millis(500), "Timer should start semi-transparent");

    app.handle_mouse_enter();

    let hover_transparency = app.window_transparency();
    assert!(
        hover_transparency > base_transparency,
        "Transparency should increase (less transparent) on hover"
    );

    app.handle_mouse_leave();

    let final_transparency = app.window_transparency();
    assert_eq!(
        final_transparency, base_transparency,
        "Transparency should return to original level after mouse leave"
    );
}

#[test]
fn integration_performance_during_transparency_changes() {
    let mut app = create_test_app();

    app.start_timer(Duration::from_secs(60)).expect("Timer start should succeed");

    let start_time = std::time::Instant::now();

    for i in 0..100 {
        let alpha = Fraction::from_millis(300 + i * 5);
        app.set_transparency(alpha).expect("Transparency change should succeed");
    }

    let duration = start_time.elapsed();

    assert!(
        duration < std::time::Duration::from_millis(100),
        "100 transparency changes should complete in <100ms, took {:?}",
        duration
    );

    let final_transparency = app.window_transparency();
    assert!(
        (final_transparency.millis() - 800).abs() < 10,
        "Final transparency should be approximately 0.8"
    );
}

#[test]
fn integration_memory_usage_during_long_operation() {
    let mut app = create_test_app();
    let started = Instant::from_nanos(0);

    app.start_timer_at(Duration::from_secs(10), started).expect("Timer start should succeed");

    for step in 0..1000u64 {
        let now = started.saturating_add(Duration::from_millis(step));
        app.tick_timer_at(now);

        app.handle_mouse_enter_at(now);
        app.handle_mouse_leave_at(now);
    }

    let memory_info = app.get_memory_usage();
    assert!(
        memory_info.resident_mb < 50,
        "Memory usage should remain under 50MB, was {}MB",
        memory_info.resident_mb
    );
}
