use my_focus::timer::{SessionStatus, SessionType, TimerError, TimerService, TimerState};

#[test]
fn full_session_counts_running_time_only() {
    let mut timer = TimerService::new();
    // Start at monotonic 100 (wall clock 5_000).
    let id = timer.start_session(SessionType::Focus, 25, 100, 5_000).unwrap();
    assert_eq!(id.len(), 36);
    // Run 30 s, then pause.
    timer.pause_session(130);
    assert_eq!(timer.get_elapsed_seconds(130), 30);
    // Paused time never counts, however long.
    assert_eq!(timer.get_elapsed_seconds(1_000_000), 30);
    // Resume at 200, run 50 s more, stop at 250. The wall clock handed to
    // stop has jumped wildly; elapsed must not care.
    timer.resume_session(200);
    let done = timer.stop_session(250, 99_999_999).unwrap();
    assert_eq!(done.elapsed_seconds, 30 + 50);
    assert_eq!(done.status, SessionStatus::Completed);
    assert_eq!(done.completed_at, Some(99_999_999));
    assert_eq!(done.started_at, Some(5_000));
    assert_eq!(done.id, id);
    assert_eq!(timer.timer_state, TimerState::Stopped);
}

#[test]
fn wall_clock_skew_does_not_change_elapsed() {
    // The same monotonic instants with wildly different wall clocks yield
    // the same elapsed seconds.
    let mut a = TimerService::new();
    a.start_session(SessionType::Focus, 25, 100, 5_000).unwrap();
    a.pause_session(130);
    a.resume_session(200);
    let done_a = a.stop_session(250, 6_000).unwrap();

    let mut b = TimerService::new();
    b.start_session(SessionType::Focus, 25, 100, 999_999_999).unwrap();
    b.pause_session(130);
    b.resume_session(200);
    let done_b = b.stop_session(250, 0).unwrap();

    assert_eq!(done_a.elapsed_seconds, done_b.elapsed_seconds);
    assert_eq!(done_a.elapsed_seconds, 80);
}

#[test]
fn starting_twice_is_refused() {
    let mut timer = TimerService::new();
    timer.start_session(SessionType::Focus, 25, 10, 10).unwrap();
    let second = timer.start_session(SessionType::ShortBreak, 5, 20, 20);
    assert_eq!(second, Err(TimerError::SessionAlreadyActive));
    // The live session is untouched.
    let session = timer.current_session.as_ref().unwrap();
    assert_eq!(session.session_type, SessionType::Focus);
    assert_eq!(session.duration_minutes, 25);
}

#[test]
fn pause_and_resume_are_noops_in_the_wrong_state() {
    let mut timer = TimerService::new();
    timer.pause_session(50);
    assert_eq!(timer.timer_state, TimerState::Stopped);
    timer.resume_session(60);
    assert_eq!(timer.timer_state, TimerState::Stopped);

    timer.start_session(SessionType::LongBreak, 15, 100, 100).unwrap();
    // Resuming while running changes nothing.
    timer.resume_session(150);
    assert_eq!(timer.timer_state, TimerState::Running);
    assert_eq!(timer.get_elapsed_seconds(160), 60);
    // Pausing twice banks the time once.
    timer.pause_session(160);
    timer.pause_session(170);
    assert_eq!(timer.get_elapsed_seconds(170), 60);
}

#[test]
fn stop_without_session_returns_none() {
    let mut timer = TimerService::new();
    assert_eq!(timer.stop_session(100, 100), None);
}

#[test]
fn remaining_seconds_clamp_at_zero_on_overrun() {
    let mut timer = TimerService::new();
    timer.start_session(SessionType::Focus, 1, 0, 0).unwrap();
    assert_eq!(timer.get_remaining_seconds(30), 30);
    assert_eq!(timer.get_remaining_seconds(60), 0);
    // Overruns are legal; remaining just stays at zero.
    assert_eq!(timer.get_remaining_seconds(600), 0);
    assert_eq!(timer.get_elapsed_seconds(600), 600);
}

#[test]
fn status_snapshot_reflects_the_live_session() {
    let mut timer = TimerService::new();
    let idle = timer.get_status(5);
    assert!(!idle.is_running);
    assert_eq!(idle.session_type, None);
    assert_eq!(idle.remaining_seconds, 0);

    timer.start_session(SessionType::ShortBreak, 5, 100, 100).unwrap();
    let status = timer.get_status(160);
    assert!(status.is_running);
    assert_eq!(status.session_type.as_deref(), Some("ShortBreak"));
    assert_eq!(status.elapsed_seconds, 60);
    assert_eq!(status.remaining_seconds, 5 * 60 - 60);
    assert_eq!(status.duration_minutes, 5);
    assert_eq!(status.task_id, None);
}

#[test]
fn fresh_session_ids_differ() {
    let mut a = TimerService::new();
    let mut b = TimerService::new();
    let id_a = a.start_session(SessionType::Focus, 25, 0, 0).unwrap();
    let id_b = b.start_session(SessionType::Focus, 25, 0, 0).unwrap();
    assert_ne!(id_a, id_b);
}
