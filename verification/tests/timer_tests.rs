//! State machine behaviour: initial state, start, pause, resume, clear.

use pomodoro_timer::timer::{
    TimerService, Phase, Status, WORK_DURATION_SECS, BREAK_DURATION_SECS,
};

/// Simulate elapsed time by advancing the simulated clock.
fn fast_forward(service: &mut TimerService, now: &mut u64, seconds: u64) {
    *now += seconds;
    service.update_remaining_at(*now);
}

#[test]
fn test_initial_state_is_idle_work() {
    let mut service = TimerService::new();
    let state = service.get_state();

    assert_eq!(state.phase, Phase::Work);
    assert_eq!(state.status, Status::WorkReady);
    assert_eq!(state.remaining_secs, WORK_DURATION_SECS);
    assert_eq!(state.duration_secs, WORK_DURATION_SECS);
    assert!(!state.completion_flag);
    assert_eq!(state.state_label, "Ready to work");
}

#[test]
fn test_start_begins_work_timer() {
    let mut service = TimerService::new();
    let mut now: u64 = 0;
    service.start_at(now).unwrap();

    let state = service.get_state_at(now);
    assert_eq!(state.phase, Phase::Work);
    assert_eq!(state.status, Status::Running);
    assert_eq!(state.remaining_secs, WORK_DURATION_SECS);
    assert_eq!(state.state_label, "Working");
    fast_forward(&mut service, &mut now, 0);
    assert_eq!(service.get_state_at(now).remaining_secs, WORK_DURATION_SECS);
}

#[test]
fn test_start_while_running_does_nothing() {
    let mut service = TimerService::new();
    let mut now: u64 = 0;
    service.start_at(now).unwrap();
    fast_forward(&mut service, &mut now, 0);

    // Try to start again - should return error
    let result = service.start_at(now);
    assert!(result.is_err());

    let state = service.get_state_at(now);
    assert_eq!(state.status, Status::Running);
    // Timer should still be running from first start
    assert!(state.remaining_secs <= WORK_DURATION_SECS);
}

#[test]
fn test_pause_freezes_countdown() {
    let mut service = TimerService::new();
    let mut now: u64 = 0;
    service.start_at(now).unwrap();
    fast_forward(&mut service, &mut now, 1);

    service.pause_at(now).unwrap();
    let paused_state = service.get_state_at(now);
    assert_eq!(paused_state.status, Status::Paused);
    let remaining_at_pause = paused_state.remaining_secs;

    // Wait and verify time doesn't decrease
    now += 1;
    let still_paused = service.get_state_at(now);
    assert_eq!(still_paused.remaining_secs, remaining_at_pause);
    assert_eq!(still_paused.state_label, "Paused (work)");
}

#[test]
fn test_resume_continues_from_paused_time() {
    let mut service = TimerService::new();
    let mut now: u64 = 0;
    service.start_at(now).unwrap();
    fast_forward(&mut service, &mut now, 1);

    service.pause_at(now).unwrap();
    let remaining_at_pause = service.get_state_at(now).remaining_secs;

    now += 1;
    service.resume_at(now).unwrap();

    let resumed = service.get_state_at(now);
    assert_eq!(resumed.status, Status::Running);
    // Should resume with same remaining time (±1 second tolerance)
    assert!((resumed.remaining_secs as i32 - remaining_at_pause as i32).abs() <= 1);
}

#[test]
fn test_pause_resume_cycle_preserves_time() {
    let mut service = TimerService::new();
    let mut now: u64 = 0;
    service.start_at(now).unwrap();

    // Multiple pause/resume cycles
    for _ in 0..3 {
        service.pause_at(now).unwrap();
        now += 1;
        service.resume_at(now).unwrap();
    }

    let final_state = service.get_state_at(now);
    assert_eq!(final_state.status, Status::Running);
    // Should have only lost a moment of running time
    assert!(final_state.remaining_secs >= WORK_DURATION_SECS - 1);
}

#[test]
fn test_clear_from_running_state() {
    let mut service = TimerService::new();
    let mut now: u64 = 0;
    service.start_at(now).unwrap();
    fast_forward(&mut service, &mut now, 1);

    service.clear_at(now).unwrap();

    let cleared = service.get_state_at(now);
    assert_eq!(cleared.phase, Phase::Work);
    assert_eq!(cleared.status, Status::WorkReady);
    assert_eq!(cleared.remaining_secs, WORK_DURATION_SECS);
    assert!(!cleared.completion_flag);
    assert_eq!(cleared.state_label, "Ready to work");
}

#[test]
fn test_clear_from_paused_state() {
    let mut service = TimerService::new();
    let mut now: u64 = 0;
    service.start_at(now).unwrap();
    fast_forward(&mut service, &mut now, 1);
    service.pause_at(now).unwrap();

    service.clear_at(now).unwrap();

    let cleared = service.get_state_at(now);
    assert_eq!(cleared.status, Status::WorkReady);
    assert_eq!(cleared.remaining_secs, WORK_DURATION_SECS);
}

#[test]
fn test_pause_resume_in_break_phase() {
    let mut service = TimerService::new();
    let mut now: u64 = 0;
    service.set_phase_at(Phase::Break, now);
    service.start_at(now).unwrap();

    fast_forward(&mut service, &mut now, 1);
    service.pause_at(now).unwrap();
    let paused_remaining = service.get_state_at(now).remaining_secs;

    now += 1;
    service.resume_at(now).unwrap();

    let resumed = service.get_state_at(now);
    assert_eq!(resumed.phase, Phase::Break);
    assert_eq!(resumed.status, Status::Running);
    assert!((resumed.remaining_secs as i32 - paused_remaining as i32).abs() <= 1);
}

#[test]
fn test_clear_during_break() {
    let mut service = TimerService::new();
    let now: u64 = 0;
    service.set_phase_at(Phase::Break, now);
    service.start_at(now).unwrap();

    service.clear_at(now).unwrap();

    let cleared = service.get_state_at(now);
    assert_eq!(cleared.phase, Phase::Break);
    assert_eq!(cleared.status, Status::BreakReady);
    assert_eq!(cleared.remaining_secs, BREAK_DURATION_SECS);
}

#[test]
fn test_completion_flag_resets_on_next_cycle() {
    let mut service = TimerService::new();

    // Complete work session (simulate)
    service.phase = Phase::Work;
    service.status = Status::Running;
    service.remaining_secs = 0;
    service.handle_completion(0);

    assert!(service.get_state_at(0).completion_flag);

    // Clear should reset the flag
    service.clear_at(0).unwrap();
    assert!(!service.get_state_at(0).completion_flag);
}

#[test]
fn test_state_labels_match_phase_and_status() {
    let mut service = TimerService::new();
    let now: u64 = 0;

    // Idle work
    assert_eq!(service.get_state_at(now).state_label, "Ready to work");

    // Running work
    service.start_at(now).unwrap();
    assert_eq!(service.get_state_at(now).state_label, "Working");

    // Paused work
    service.pause_at(now).unwrap();
    assert_eq!(service.get_state_at(now).state_label, "Paused (work)");

    // Running break (simulate)
    service.phase = Phase::Break;
    service.status = Status::Running;
    service.state_label = "Break time".to_string();
    assert_eq!(service.get_state_at(now).state_label, "Break time");

    // Complete
    service.status = Status::Complete;
    service.state_label = "Break complete".to_string();
    assert_eq!(service.get_state_at(now).state_label, "Break complete");
}

#[test]
fn test_timing_accuracy_within_tolerance() {
    let mut service = TimerService::new();
    let mut now: u64 = 0;
    service.start_at(now).unwrap();

    // Run for approximately 1 second
    fast_forward(&mut service, &mut now, 1);

    let state = service.get_state_at(now);
    // Should have consumed ~1 second (±1 second tolerance)
    let expected_remaining = WORK_DURATION_SECS - 1;
    assert!((state.remaining_secs as i32 - expected_remaining as i32).abs() <= 1);
}

#[test]
fn test_cannot_pause_when_idle() {
    let mut service = TimerService::new();
    let result = service.pause();

    // Should return error
    assert!(result.is_err());
    assert_eq!(service.get_state().status, Status::WorkReady);
}

#[test]
fn test_cannot_resume_when_not_paused() {
    let mut service = TimerService::new();
    let result = service.resume();

    // Should return error
    assert!(result.is_err());
    assert_eq!(service.get_state().status, Status::WorkReady);
}

#[test]
fn test_clear_resets_to_initial_state() {
    let mut service = TimerService::new();
    service.clear().unwrap();

    let state = service.get_state();
    assert_eq!(state.phase, Phase::Work);
    assert_eq!(state.status, Status::WorkReady);
    assert_eq!(state.remaining_secs, WORK_DURATION_SECS);
    assert_eq!(state.duration_secs, WORK_DURATION_SECS);
    assert!(!state.completion_flag);
    assert_eq!(state.state_label, "Ready to work");
}

#[test]
fn test_monotonic_timing_handles_system_clock_changes() {
    let mut service = TimerService::new();
    let mut now: u64 = 0;
    service.start_at(now).unwrap();

    let instant1 = service.started_at.unwrap();
    fast_forward(&mut service, &mut now, 100);

    // The started reference stays fixed throughout a running session
    let instant2 = service.started_at.unwrap();
    assert_eq!(instant1, instant2);
}

#[test]
fn test_start_while_running_returns_error() {
    let mut service = TimerService::new();
    service.start_at(0).unwrap();

    // Try to start again while running
    let result = service.start_at(0);

    assert!(result.is_err());
    assert_eq!(result.unwrap_err(), "Timer already running");
}

#[test]
fn test_start_while_paused_points_at_resume() {
    let mut service = TimerService::new();
    service.start_at(0).unwrap();
    service.pause_at(1).unwrap();

    let result = service.start_at(1);

    assert!(result.is_err());
    assert_eq!(result.unwrap_err(), "Timer is paused, use resume instead");
    // The rejected call left the timer untouched
    assert_eq!(service.get_state_at(1).status, Status::Paused);
}

#[test]
fn test_pause_error_message_when_idle() {
    let mut service = TimerService::new();
    let result = service.pause_at(0);
    assert_eq!(result.unwrap_err(), "No running timer to pause");
}

#[test]
fn test_resume_error_message_when_idle() {
    let mut service = TimerService::new();
    let result = service.resume_at(0);
    assert_eq!(result.unwrap_err(), "No paused timer to resume");
}

#[test]
fn test_pause_at_five_minutes_then_resume_counts_down() {
    let mut service = TimerService::new();
    let mut now: u64 = 0;
    service.start_at(now).unwrap();

    fast_forward(&mut service, &mut now, 300);
    let paused = service.pause_at(now).unwrap();
    assert_eq!(paused.status, Status::Paused);
    assert_eq!(paused.remaining_secs, 1200);

    let resumed = service.resume_at(now).unwrap();
    assert_eq!(resumed.status, Status::Running);
    assert_eq!(resumed.remaining_secs, 1200);

    fast_forward(&mut service, &mut now, 1);
    assert_eq!(service.get_state_at(now).remaining_secs, 1199);
}

#[test]
fn test_real_clock_operations_smoke() {
    let mut service = TimerService::new();

    let started = service.start().unwrap();
    assert_eq!(started.status, Status::Running);
    assert!(started.remaining_secs <= WORK_DURATION_SECS);

    let paused = service.pause().unwrap();
    assert_eq!(paused.status, Status::Paused);

    let resumed = service.resume().unwrap();
    assert_eq!(resumed.status, Status::Running);

    let cleared = service.clear().unwrap();
    assert_eq!(cleared.status, Status::WorkReady);
    assert_eq!(cleared.remaining_secs, WORK_DURATION_SECS);

    service.set_phase(Phase::Break);
    let state = service.get_state();
    assert_eq!(state.phase, Phase::Break);
    assert_eq!(state.status, Status::BreakReady);
    assert_eq!(state.remaining_secs, BREAK_DURATION_SECS);
}

/// The structural invariants of a reachable state: remaining never exceeds
/// the duration, the duration is the fixed constant of the phase, the
/// started reference exists exactly while running, and the completed-at
/// reference and the completion flag exist exactly while complete.
fn assert_invariants(service: &TimerService) {
    assert!(service.remaining_secs <= service.duration_secs);
    let expected_duration = match service.phase {
        Phase::Work => WORK_DURATION_SECS,
        Phase::Break => BREAK_DURATION_SECS,
    };
    assert_eq!(service.duration_secs, expected_duration);
    assert_eq!(service.started_at.is_some(), service.status == Status::Running);
    assert_eq!(service.completed_at.is_some(), service.status == Status::Complete);
    assert_eq!(service.completion_flag, service.status == Status::Complete);
}

#[test]
fn test_invariants_hold_across_operations() {
    let mut service = TimerService::new();
    let mut now: u64 = 0;
    assert_invariants(&service);

    service.start_at(now).unwrap();
    assert_invariants(&service);

    fast_forward(&mut service, &mut now, 600);
    assert_invariants(&service);

    service.pause_at(now).unwrap();
    assert_invariants(&service);

    service.resume_at(now).unwrap();
    assert_invariants(&service);

    service.set_phase_at(Phase::Break, now);
    assert_invariants(&service);

    service.start_at(now).unwrap();
    assert_invariants(&service);

    fast_forward(&mut service, &mut now, BREAK_DURATION_SECS as u64 + 5);
    assert_invariants(&service);

    service.set_phase_at(Phase::Work, now);
    assert_invariants(&service);

    service.clear_at(now).unwrap();
    assert_invariants(&service);
}

#[test]
fn test_shared_timer_service_initial_state() {
    let shared = pomodoro_timer::timer::create_timer_service();
    let mut service = shared.lock().unwrap();
    let state = service.get_state();
    assert_eq!(state.phase, Phase::Work);
    assert_eq!(state.status, Status::WorkReady);
    assert_eq!(state.remaining_secs, WORK_DURATION_SECS);
}
