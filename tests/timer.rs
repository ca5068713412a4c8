use pomodoro::timer::{create_default_session, create_default_timer, State, Timer};

fn running_from(start: u64, limit: u16) -> Timer {
    let mut t = create_default_timer();
    t.time_limit_seconds = limit;
    t.start_trigger_at(start);
    t
}

#[test]
fn default_timer_waits_stopped() {
    let t = create_default_timer();
    assert_eq!(t.state, State::Stopped);
    assert_eq!(t.time_now, 0);
    assert_eq!(t.time_limit_seconds, 60);
    assert_eq!(t.session.time_limit_minutes, 1);
    assert_eq!(t.time_paused, 0);
}

#[test]
fn default_session_values() {
    let s = create_default_session();
    assert_eq!(s.short_break_time, 5);
    assert_eq!(s.long_break_time, 30);
    assert_eq!(s.time_limit_minutes, 1);
    assert_eq!(s.stage_limit, 4);
    assert_eq!(s.stage_now, 0);
    assert!(!s.is_break_time);
}

#[test]
fn ticks_show_floor_of_net_seconds_and_never_go_back() {
    let mut t = running_from(500, 1000);
    let readings: Vec<u64> = vec![500, 1499, 1500, 2400, 2500, 2500, 10_499, 10_500, 65_000];
    let expected: Vec<u16> = vec![0, 0, 1, 1, 2, 2, 9, 10, 64];
    let mut last: u16 = 0;
    for (r, e) in readings.iter().zip(expected.iter()) {
        t.update_at(*r);
        assert_eq!(t.time_now, *e);
        assert!(t.time_now >= last);
        assert_eq!(t.state, State::Running);
        last = t.time_now;
    }
    assert_eq!(t.time_elapsed, 64_500);
}

#[test]
fn ticks_subtract_paused_time() {
    let mut t = running_from(0, 1000);
    t.update_at(5_000);
    t.pause_trigger_at(5_000);
    t.update_at(20_000);
    assert_eq!(t.time_now, 5);
    t.pause_trigger_at(20_000);
    assert_eq!(t.time_paused, 15_000);
    t.update_at(27_999);
    assert_eq!(t.time_now, 12);
    t.pause_trigger_at(30_000);
    t.pause_trigger_at(31_000);
    assert_eq!(t.time_paused, 16_000);
    t.update_at(40_000);
    assert_eq!(t.time_now, 24);
}

#[test]
fn pause_and_resume_at_same_instant_changes_nothing() {
    let mut t = running_from(0, 100);
    t.update_at(42_300);
    assert_eq!(t.time_now, 42);
    t.pause_trigger_at(42_300);
    assert_eq!(t.state, State::Paused);
    t.pause_trigger_at(42_300);
    assert_eq!(t.state, State::Running);
    assert_eq!(t.time_now, 42);
    assert_eq!(t.time_paused, 0);
    t.update_at(42_300);
    assert_eq!(t.time_now, 42);
}

#[test]
fn pause_is_ignored_when_stopped_or_finished() {
    let mut t = create_default_timer();
    t.pause_trigger_at(10);
    assert_eq!(t.state, State::Stopped);
    let mut f = running_from(0, 1);
    f.update_at(1_000);
    assert_eq!(f.state, State::Finished);
    f.pause_trigger_at(2_000);
    assert_eq!(f.state, State::Finished);
}

#[test]
fn stop_from_running_paused_and_stopped() {
    let mut r = running_from(0, 100);
    r.update_at(30_000);
    r.stop();
    assert_eq!(r.state, State::Stopped);
    assert_eq!(r.time_now, 0);

    let mut p = running_from(0, 100);
    p.update_at(30_000);
    p.pause_trigger_at(30_000);
    p.stop();
    assert_eq!(p.state, State::Stopped);
    assert_eq!(p.time_now, 0);

    let mut s = create_default_timer();
    s.stop();
    assert_eq!(s.state, State::Stopped);
    assert_eq!(s.time_now, 0);
}

#[test]
fn stop_leaves_finished_timer_alone() {
    let mut f = running_from(0, 3);
    f.update_at(3_500);
    assert_eq!(f.state, State::Finished);
    assert_eq!(f.time_now, 3);
    f.stop();
    assert_eq!(f.state, State::Finished);
    assert_eq!(f.time_now, 3);
}

#[test]
fn start_from_stopped_resets_the_run() {
    let mut t = running_from(0, 100);
    t.update_at(10_000);
    t.pause_trigger_at(10_000);
    t.pause_trigger_at(15_000);
    t.update_at(20_000);
    assert_eq!(t.time_now, 15);
    t.stop();
    t.start_trigger_at(50_000);
    assert_eq!(t.state, State::Running);
    assert_eq!(t.time_now, 0);
    assert_eq!(t.time_paused, 0);
    assert_eq!(t.start_time, 50_000);
    t.update_at(53_000);
    assert_eq!(t.time_now, 3);
}

#[test]
fn start_is_ignored_when_running_or_paused() {
    let mut t = running_from(0, 100);
    t.update_at(7_000);
    t.start_trigger_at(9_000);
    assert_eq!(t.state, State::Running);
    assert_eq!(t.start_time, 0);
    assert_eq!(t.time_now, 7);
    t.pause_trigger_at(9_000);
    t.start_trigger_at(12_000);
    assert_eq!(t.state, State::Paused);
    assert_eq!(t.start_time, 0);
    assert_eq!(t.time_now, 7);
}

#[test]
fn reaching_limit_finishes_and_nothing_restarts() {
    let mut t = running_from(0, 10);
    t.update_at(9_999);
    assert_eq!(t.state, State::Running);
    t.update_at(10_000);
    assert_eq!(t.state, State::Finished);
    assert_eq!(t.time_now, 10);
    t.update_at(30_000);
    assert_eq!(t.time_now, 10);
    t.pause_trigger_at(31_000);
    t.stop();
    t.start_trigger_at(32_000);
    t.update_at(40_000);
    assert_eq!(t.state, State::Finished);
    assert_eq!(t.time_now, 10);
}

#[test]
fn quit_finishes_from_any_state() {
    let mut t = create_default_timer();
    t.quit();
    assert_eq!(t.state, State::Finished);
    let mut r = running_from(0, 100);
    r.quit();
    assert_eq!(r.state, State::Finished);
}

#[test]
fn scenario_pause_midway_then_finish() {
    let mut t = running_from(0, 120);
    for s in 1..=60u64 {
        t.update_at(s * 1_000);
    }
    assert_eq!(t.time_now, 60);
    assert_eq!(t.state, State::Running);
    t.pause_trigger_at(60_000);
    assert_eq!(t.state, State::Paused);
    for s in 61..=90u64 {
        t.update_at(s * 1_000);
        assert_eq!(t.time_now, 60);
    }
    t.pause_trigger_at(90_000);
    assert_eq!(t.state, State::Running);
    for s in 91..=150u64 {
        t.update_at(s * 1_000);
    }
    assert_eq!(t.time_now, 120);
    assert_eq!(t.state, State::Finished);
}

#[test]
fn clock_driven_triggers() {
    let mut t = create_default_timer();
    t.update();
    assert_eq!(t.state, State::Stopped);
    t.start_trigger();
    assert_eq!(t.state, State::Running);
    assert_eq!(t.time_now, 0);
    t.update();
    assert_eq!(t.state, State::Running);
    assert_eq!(t.time_now, 0);
    t.pause_trigger();
    assert_eq!(t.state, State::Paused);
    t.pause_trigger();
    assert_eq!(t.state, State::Running);
    t.stop();
    assert_eq!(t.state, State::Stopped);
}

#[test]
fn clock_reading_moves_forward() {
    let t = create_default_timer();
    let a = t.reading();
    let wait = std::time::Instant::now();
    while wait.elapsed().as_millis() < 30 {}
    let b = t.reading();
    assert!(b >= a + 30);
}
