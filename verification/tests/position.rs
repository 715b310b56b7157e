use ghost_timer::models::app_state::AppState;

#[test]
fn integration_drag_updates_position() {
    let mut app = AppState::new();

    let initial_position = app.window_position();

    app.handle_drag_start(initial_position.0, initial_position.1);

    let new_x = initial_position.0 + 100;
    let new_y = initial_position.1 + 50;
    app.handle_drag_move(new_x, new_y);

    let drag_position = app.window_position();
    assert_eq!(drag_position, (new_x, new_y), "Position should update during drag operation");

    app.handle_drag_end();

    let final_position = app.window_position();
    assert_eq!(final_position, (new_x, new_y), "Position should be maintained after drag ends");
}

#[test]
fn integration_multi_monitor_position_handling() {
    let mut app = AppState::new();
    let monitors = app.get_monitors();

    if monitors.len() > 1 {
        for (i, monitor) in monitors.iter().enumerate().take(2) {
            let (mx, my, mw, mh) = monitor.bounds;
            let center_x = mx + mw / 2;
            let center_y = my + mh / 2;

            app.drag_window_to(center_x, center_y);

            let actual_position = app.window_position();
            assert_eq!(
                actual_position,
                (center_x, center_y),
                "Should be able to position on monitor {}",
                i
            );

            let config = app.get_configuration();
            assert_eq!(
                config.display.position,
                (center_x, center_y),
                "Position on monitor {} should be saved to config",
                i
            );
        }
    }
}

#[test]
fn integration_rapid_position_changes() {
    let mut app = AppState::new();

    let start_time = std::time::Instant::now();
    let initial_position = app.window_position();

    for i in 0..50 {
        let x = initial_position.0 + i * 2;
        let y = initial_position.1 + i;
        app.drag_window_to(x, y);
    }

    let duration = start_time.elapsed();

    assert!(
        duration < std::time::Duration::from_millis(100),
        "50 position changes should complete in <100ms, took {:?}",
        duration
    );

    let final_position = app.window_position();
    let expected_final = (initial_position.0 + 49 * 2, initial_position.1 + 49);
    assert_eq!(final_position, expected_final, "Final position should match last drag operation");
}

#[test]
fn integration_position_edge_detection() {
    let mut app = AppState::new();
    let monitors = app.get_monitors();

    if let Some(primary_monitor) = monitors.iter().find(|m| m.is_primary) {
        let (mx, my, mw, mh) = primary_monitor.bounds;

        let edge_positions = vec![
            (mx, my),
            (mx + mw - 50, my),
            (mx, my + mh - 50),
            (mx + mw - 50, my + mh - 50),
        ];

        for (i, &(x, y)) in edge_positions.iter().enumerate() {
            app.drag_window_to(x, y);

            let actual_position = app.window_position();

            assert!((actual_position.0 - x).abs() <= 10, "Edge position {} X should be accurate", i);
            assert!((actual_position.1 - y).abs() <= 10, "Edge position {} Y should be accurate", i);

            assert!(
                actual_position.0 >= mx - 50 && actual_position.0 <= mx + mw + 50,
                "Edge position {} should remain within monitor X bounds",
                i
            );
            assert!(
                actual_position.1 >= my - 50 && actual_position.1 <= my + mh + 50,
                "Edge position {} should remain within monitor Y bounds",
                i
            );
        }
    }
}
