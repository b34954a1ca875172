use pomodoro::clock::TimePoint;
use pomodoro::timer::{Event, Timer, TimerError, TimerMsg, TimerUpdate};

fn at(secs: u64) -> TimePoint {
    TimePoint::from_secs(secs)
}

#[test]
fn reset_then_remaining_returns_duration() {
    for d in [1u32, 2, 59, 300, 2700, u32::MAX] {
        let mut t = Timer::new(0);
        assert_eq!(t.reset_at(at(1_000), d), Ok(()));
        assert_eq!(t.remaining_at(at(1_000)), d);
        assert!(t.is_running());
        assert_eq!(t.max_duration(), d);
        assert_eq!(t.accumulated_elapsed(), 0);
        assert_eq!(t.start_time().map(|s| s.as_secs()), Some(1_000));
    }
}

#[test]
fn reset_with_zero_is_invalid_and_changes_nothing() {
    let mut t = Timer::new(0);
    t.reset_at(at(10), 30).unwrap();
    t.pause_at(at(14));
    assert_eq!(t.reset_at(at(20), 0), Err(TimerError::InvalidDuration));
    assert!(!t.is_running());
    assert_eq!(t.max_duration(), 30);
    assert_eq!(t.accumulated_elapsed(), 4);
    assert_eq!(t.remaining_at(at(99)), 26);
}

#[test]
fn remaining_never_grows_and_reaches_zero_at_start_plus_duration() {
    let mut t = Timer::new(0);
    t.reset_at(at(500), 7).unwrap();
    let mut last = t.remaining_at(at(500));
    assert_eq!(last, 7);
    for now in 500..520u64 {
        let left = t.remaining_at(at(now));
        assert!(left <= last);
        assert!(left <= 7);
        last = left;
    }
    assert_eq!(t.remaining_at(at(506)), 1);
    assert_eq!(t.remaining_at(at(507)), 0);
    assert_eq!(t.remaining_at(at(508)), 0);
}

#[test]
fn remaining_is_recomputed_from_the_clock_not_stepped() {
    let mut t = Timer::new(0);
    t.reset_at(at(0), 100).unwrap();
    // a late tick: forty seconds passed between two polls
    assert_eq!(t.poll_at(at(1)), Some(Event::Tick(99)));
    assert_eq!(t.poll_at(at(41)), Some(Event::Tick(59)));
    assert_eq!(t.remaining_at(at(41)), 59);
}

#[test]
fn pause_then_resume_keeps_remaining() {
    for gap in [0u64, 1, 10, 3_600, 1 << 40] {
        let mut t = Timer::new(0);
        t.reset_at(at(100), 60).unwrap();
        let before = t.remaining_at(at(125));
        assert_eq!(before, 35);
        t.pause_at(at(125));
        assert_eq!(t.remaining_at(at(125)), before);
        assert_eq!(t.remaining_at(at(125 + gap)), before);
        t.resume_at(at(125 + gap));
        assert!(t.is_running());
        assert_eq!(t.remaining_at(at(125 + gap)), before);
        assert_eq!(t.remaining_at(at(125 + gap + 5)), before - 5);
    }
}

#[test]
fn pause_is_idempotent() {
    let mut t = Timer::new(0);
    t.reset_at(at(0), 50).unwrap();
    t.pause_at(at(10));
    let acc = t.accumulated_elapsed();
    assert_eq!(acc, 10);
    t.pause_at(at(30));
    assert_eq!(t.accumulated_elapsed(), acc);
    assert!(!t.is_running());
    assert_eq!(t.remaining_at(at(77)), 40);
}

#[test]
fn resume_is_idempotent() {
    let mut t = Timer::new(0);
    t.reset_at(at(0), 50).unwrap();
    t.resume_at(at(20));
    // still the first run: the start has not moved
    assert_eq!(t.start_time().map(|s| s.as_secs()), Some(0));
    assert_eq!(t.remaining_at(at(20)), 30);
    t.pause_at(at(20));
    t.resume_at(at(100));
    t.resume_at(at(105));
    assert_eq!(t.start_time().map(|s| s.as_secs()), Some(100));
    assert_eq!(t.remaining_at(at(105)), 25);
}

#[test]
fn resume_does_nothing_when_nothing_is_left() {
    let mut t = Timer::new(0);
    t.reset_at(at(0), 5).unwrap();
    t.pause_at(at(9));
    assert_eq!(t.remaining_at(at(9)), 0);
    t.resume_at(at(12));
    assert!(!t.is_running());
    assert_eq!(t.remaining_at(at(12)), 0);
}

#[test]
fn scenario_start_pause_resume_finish() {
    let mut t = Timer::new(0);
    assert_eq!(t.update(TimerMsg::ResetTimer(5), at(1_000)).map(|u| u.event), Ok(None));
    assert_eq!(t.remaining_at(at(1_003)), 2);
    t.pause_at(at(1_003));
    assert_eq!(t.remaining_at(at(1_013)), 2);
    t.resume_at(at(1_013));
    assert_eq!(t.poll_at(at(1_015)), Some(Event::Finished));
    assert_eq!(t.remaining_at(at(1_015)), 0);
    assert!(!t.is_running());
}

#[test]
fn finished_is_published_once_per_cycle() {
    let mut t = Timer::new(0);
    t.reset_at(at(0), 3).unwrap();
    assert_eq!(t.poll_at(at(1)), Some(Event::Tick(2)));
    assert_eq!(t.poll_at(at(2)), Some(Event::Tick(1)));
    assert_eq!(t.poll_at(at(3)), Some(Event::Finished));
    for now in 3..20u64 {
        assert_eq!(t.poll_at(at(now)), None);
        t.resume_at(at(now));
        t.pause_at(at(now));
    }
    assert_eq!(t.poll_at(at(20)), None);
    // a fresh start opens the next cycle
    t.reset_at(at(20), 2).unwrap();
    assert_eq!(t.poll_at(at(21)), Some(Event::Tick(1)));
    assert_eq!(t.poll_at(at(30)), Some(Event::Finished));
    assert_eq!(t.poll_at(at(31)), None);
}

#[test]
fn poll_reports_the_end_of_a_countdown_paused_at_expiry() {
    let mut t = Timer::new(0);
    t.reset_at(at(0), 5).unwrap();
    t.pause_at(at(5));
    assert_eq!(t.poll_at(at(6)), Some(Event::Finished));
    assert_eq!(t.poll_at(at(7)), None);
}

#[test]
fn poll_of_a_paused_countdown_ticks_with_the_frozen_time() {
    let mut t = Timer::new(0);
    t.reset_at(at(0), 50).unwrap();
    t.pause_at(at(20));
    assert_eq!(t.poll_at(at(1_000)), Some(Event::Tick(30)));
    assert!(!t.is_running());
}

#[test]
fn clock_rewind_counts_as_no_time() {
    let mut t = Timer::new(0);
    t.reset_at(at(1_000), 60).unwrap();
    assert_eq!(t.remaining_at(at(990)), 60);
    assert_eq!(t.poll_at(at(0)), Some(Event::Tick(60)));
    t.pause_at(at(900));
    assert_eq!(t.accumulated_elapsed(), 0);
    assert_eq!(t.remaining_at(at(2_000)), 60);
}

#[test]
fn stop_abandons_the_countdown_without_finished() {
    let mut t = Timer::new(0);
    t.reset_at(at(0), 50).unwrap();
    t.stop();
    assert!(!t.is_running());
    assert!(t.start_time().is_none());
    assert_eq!(t.remaining_at(at(1)), 0);
    assert_eq!(t.poll_at(at(1)), None);
    t.resume_at(at(2));
    assert!(!t.is_running());
    assert_eq!(t.poll_at(at(100)), None);
}

#[test]
fn accumulated_time_is_held_at_the_widest_duration() {
    let mut t = Timer::new(0);
    t.reset_at(at(0), 10).unwrap();
    t.pause_at(at(4));
    t.resume_at(at(4));
    t.pause_at(at(u64::MAX));
    assert_eq!(t.accumulated_elapsed(), u32::MAX);
    assert_eq!(t.remaining_at(at(0)), 0);
}

#[test]
fn a_new_countdown_is_armed_but_not_started() {
    let mut t = Timer::new(90);
    assert!(!t.is_running());
    assert!(t.start_time().is_none());
    assert_eq!(t.remaining_at(at(12_345)), 90);
    assert_eq!(t.poll_at(at(12_345)), Some(Event::Tick(90)));
    t.resume_at(at(12_345));
    assert!(t.is_running());
    assert_eq!(t.remaining_at(at(12_350)), 85);
}

#[test]
fn the_default_countdown_rests() {
    let mut t = Timer::default();
    assert!(!t.is_running());
    assert_eq!(t.max_duration(), 0);
    assert_eq!(t.remaining_at(at(5)), 0);
    assert_eq!(t.poll_at(at(5)), None);
}

#[test]
fn update_says_what_to_publish_and_whether_to_redraw() {
    let mut t = Timer::new(0);
    assert_eq!(
        t.update(TimerMsg::ResetTimer(0), at(0)),
        Err(TimerError::InvalidDuration)
    );
    assert_eq!(
        t.update(TimerMsg::ResetTimer(10), at(0)),
        Ok(TimerUpdate { event: None, redraw: true })
    );
    assert_eq!(
        t.update(TimerMsg::ResumeTimer, at(1)),
        Ok(TimerUpdate { event: None, redraw: false })
    );
    assert_eq!(
        t.update(TimerMsg::CountDown, at(4)),
        Ok(TimerUpdate { event: Some(Event::Tick(6)), redraw: true })
    );
    assert_eq!(
        t.update(TimerMsg::PauseTimer, at(5)),
        Ok(TimerUpdate { event: None, redraw: true })
    );
    assert_eq!(
        t.update(TimerMsg::PauseTimer, at(6)),
        Ok(TimerUpdate { event: None, redraw: false })
    );
    assert_eq!(
        t.update(TimerMsg::ResumeTimer, at(50)),
        Ok(TimerUpdate { event: None, redraw: true })
    );
    assert_eq!(
        t.update(TimerMsg::CountDown, at(55)),
        Ok(TimerUpdate { event: Some(Event::Finished), redraw: true })
    );
    assert_eq!(
        t.update(TimerMsg::CountDown, at(56)),
        Ok(TimerUpdate { event: None, redraw: false })
    );
    assert_eq!(
        t.update(TimerMsg::ResumeTimer, at(57)),
        Ok(TimerUpdate { event: None, redraw: false })
    );
}

#[test]
fn has_run_out_only_between_expiry_and_its_report() {
    let mut t = Timer::new(0);
    assert!(!t.has_run_out_at(at(0)));
    t.reset_at(at(0), 5).unwrap();
    assert!(!t.has_run_out_at(at(4)));
    assert!(t.has_run_out_at(at(5)));
    assert_eq!(t.poll_at(at(5)), Some(Event::Finished));
    assert!(!t.has_run_out_at(at(6)));
}

#[test]
fn the_wall_clock_reads_a_time_after_the_epoch() {
    let first = TimePoint::now();
    let second = TimePoint::now();
    assert!(first.as_secs() > 1_500_000_000);
    assert!(second.since(&first) < 60);
}

#[test]
fn countdown_by_the_wall_clock() {
    let mut t = Timer::new(0);
    assert_eq!(t.reset(0), Err(TimerError::InvalidDuration));
    assert_eq!(t.reset(3_600), Ok(()));
    assert!(t.is_running());
    let left = t.remaining();
    assert!(left <= 3_600 && left >= 3_540);
    match t.poll() {
        Some(Event::Tick(n)) => assert!(n <= 3_600 && n >= 3_540),
        other => panic!("unexpected {:?}", other),
    }
    t.pause();
    assert!(!t.is_running());
    let frozen = t.remaining();
    assert_eq!(t.remaining(), frozen);
    t.resume();
    assert!(t.is_running());
    assert!(t.remaining() <= frozen);
}

#[test]
fn time_points_subtract_to_spans() {
    assert_eq!(at(10).since(&at(3)), 7);
    assert_eq!(at(3).since(&at(10)), 0);
    assert_eq!(at(3).since(&at(3)), 0);
    assert_eq!(at(u64::MAX).since(&at(0)), u64::MAX);
}
