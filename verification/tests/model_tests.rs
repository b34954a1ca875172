use pomodoro::clock::TimePoint;
use pomodoro::model::{AppModel, AppMsg, Command, Effect};
use pomodoro::status::Status;
use pomodoro::timer::{Event, TimerError};

fn at(secs: u64) -> TimePoint {
    TimePoint::from_secs(secs)
}

#[test]
fn a_new_session_starts_at_the_first_focus_stage() {
    let m = AppModel::default();
    assert_eq!(m.status(), Status::Focus(0));
    assert!(m.is_notify());
    assert!(!m.is_auto_next_task());
    assert!(!m.is_pending_confirmation());
    assert!(!m.is_paused());
    assert!(!m.timer().is_running());
    assert_eq!(m.remaining_at(at(0)), 2_700);
    assert_eq!(m.remaining_at(at(5_000)), 2_700);
    assert_eq!(m.timer().max_duration(), 2_700);
}

#[test]
fn the_first_message_of_any_kind_sets_the_countdown_going() {
    for msg in [
        AppMsg::NotifyToggled(false),
        AppMsg::NotifyToggled(true),
        AppMsg::AutoNextTaskToggled(true),
        AppMsg::ResumeTimer,
        AppMsg::CountDown,
    ] {
        let mut m = AppModel::default();
        let fx = m.update(msg, at(1_000));
        assert!(fx.timer_active);
        assert!(!fx.show_dialog);
        assert!(!m.is_paused());
        assert!(m.timer().is_running());
        assert_eq!(m.remaining_at(at(1_000)), 2_700);
        assert_eq!(m.remaining_at(at(1_060)), 2_640);
        assert_eq!(m.status(), Status::Focus(0));
    }
    let mut m = AppModel::default();
    let fx = m.update(AppMsg::PauseTimer, at(1_000));
    assert!(!fx.timer_active);
    assert!(m.is_paused());
    assert_eq!(m.remaining_at(at(9_000)), 2_700);
}

#[test]
fn a_later_message_does_not_begin_the_countdown_anew() {
    let mut m = AppModel::default();
    m.update(AppMsg::NotifyToggled(true), at(100));
    m.update(AppMsg::AutoNextTaskToggled(false), at(160));
    assert_eq!(m.remaining_at(at(160)), 2_640);
    m.update(AppMsg::PauseTimer, at(200));
    m.update(AppMsg::NotifyToggled(false), at(900));
    assert!(m.is_paused());
    assert_eq!(m.remaining_at(at(900)), 2_600);
}

#[test]
fn a_session_can_start_with_the_settings_last_chosen() {
    let m = AppModel::with_settings(false, true);
    assert_eq!(m.status(), Status::Focus(0));
    assert!(!m.is_notify());
    assert!(m.is_auto_next_task());
    assert!(!m.is_pending_confirmation());
    assert!(!m.is_paused());
    assert_eq!(m.remaining_at(at(7)), 2_700);
}

#[test]
fn scenario_pending_confirmation_then_extend() {
    let mut m = AppModel::new();
    assert_eq!(m.apply(Command::Start(2_700), at(0)), Ok(()));
    let fx = m.update(AppMsg::CountDown, at(2_700));
    assert_eq!(
        fx,
        Effect { timer_active: false, show_dialog: true, event: Some(Event::Finished) }
    );
    assert!(m.is_pending_confirmation());
    assert!(m.is_paused());
    assert_eq!(m.status(), Status::Focus(0));
    assert_eq!(m.remaining_at(at(2_700)), 0);
    // nothing more is published while the decision is awaited
    assert_eq!(m.update(AppMsg::CountDown, at(2_701)).event, None);
    assert_eq!(m.apply(Command::Extend(300), at(2_710)), Ok(()));
    assert!(!m.is_pending_confirmation());
    assert!(!m.is_paused());
    assert_eq!(m.status(), Status::Focus(0));
    assert_eq!(m.remaining_at(at(2_710)), 300);
    assert_eq!(m.remaining_at(at(2_810)), 200);
    assert_eq!(m.update(AppMsg::CountDown, at(3_010)).event, Some(Event::Finished));
    assert_eq!(m.status(), Status::Focus(0));
}

#[test]
fn scenario_commands_start_pause_resume_finish() {
    let mut m = AppModel::new();
    assert_eq!(m.apply(Command::Start(5), at(100)), Ok(()));
    assert_eq!(m.remaining_at(at(103)), 2);
    assert_eq!(m.apply(Command::Pause, at(103)), Ok(()));
    assert_eq!(m.remaining_at(at(113)), 2);
    assert_eq!(m.apply(Command::Resume, at(113)), Ok(()));
    assert_eq!(m.tick(at(115)).event, Some(Event::Finished));
    assert_eq!(m.remaining_at(at(115)), 0);
    assert_eq!(m.tick(at(116)).event, None);
}

#[test]
fn auto_advance_moves_on_and_restarts() {
    let mut m = AppModel::new();
    m.update(AppMsg::AutoNextTaskToggled(true), at(0));
    assert!(m.is_auto_next_task());
    m.update(AppMsg::ResetTimer, at(0));
    let fx = m.update(AppMsg::CountDown, at(2_705));
    assert_eq!(
        fx,
        Effect { timer_active: true, show_dialog: false, event: Some(Event::Finished) }
    );
    assert_eq!(m.status(), Status::ShortBreak(0));
    assert!(!m.is_pending_confirmation());
    assert_eq!(m.remaining_at(at(2_705)), 300);
    assert_eq!(m.update(AppMsg::CountDown, at(2_706)).event, Some(Event::Tick(299)));
}

#[test]
fn no_dialog_when_notification_is_off() {
    let mut m = AppModel::new();
    m.update(AppMsg::NotifyToggled(false), at(0));
    assert!(!m.is_notify());
    m.update(AppMsg::ResetTimer, at(0));
    let fx = m.update(AppMsg::CountDown, at(3_000));
    assert_eq!(
        fx,
        Effect { timer_active: false, show_dialog: false, event: Some(Event::Finished) }
    );
    assert!(m.is_pending_confirmation());
    assert!(!m.reset_timer_if_empty(at(3_001)));
}

#[test]
fn reset_timer_if_empty_asks_once() {
    let mut m = AppModel::new();
    m.update(AppMsg::ResetTimer, at(0));
    assert!(!m.reset_timer_if_empty(at(100)));
    assert!(!m.is_pending_confirmation());
    assert!(m.reset_timer_if_empty(at(2_700)));
    assert!(m.is_pending_confirmation());
    assert!(!m.reset_timer_if_empty(at(2_701)));
    assert_eq!(m.status(), Status::Focus(0));
}

#[test]
fn next_stage_moves_on_and_counts_the_new_length() {
    let mut m = AppModel::new();
    let fx = m.update(AppMsg::NextStage, at(50));
    assert_eq!(fx, Effect { timer_active: true, show_dialog: false, event: None });
    assert_eq!(m.status(), Status::ShortBreak(0));
    assert_eq!(m.remaining_at(at(50)), 300);
    assert_eq!(m.advance(at(60)), (Status::Focus(1), 2_700));
    assert_eq!(m.remaining_at(at(60)), 2_700);
    assert_eq!(m.advance(at(60)), (Status::ShortBreak(1), 300));
    assert_eq!(m.advance(at(60)), (Status::Focus(2), 2_700));
    assert_eq!(m.advance(at(60)), (Status::ShortBreak(2), 300));
    assert_eq!(m.advance(at(60)), (Status::Focus(3), 2_700));
    assert_eq!(m.advance(at(60)), (Status::LongBreak, 900));
    assert_eq!(m.advance(at(60)), (Status::Focus(0), 2_700));
}

#[test]
fn extend_stage_counts_five_minutes_in_the_same_stage() {
    let mut m = AppModel::new();
    m.update(AppMsg::NextStage, at(0));
    m.update(AppMsg::CountDown, at(1_000));
    assert!(m.is_pending_confirmation());
    let fx = m.update(AppMsg::ExtendStage, at(1_000));
    assert_eq!(fx, Effect { timer_active: true, show_dialog: false, event: None });
    assert_eq!(m.status(), Status::ShortBreak(0));
    assert_eq!(m.remaining_at(at(1_000)), 300);
    assert!(!m.is_pending_confirmation());
}

#[test]
fn extend_with_zero_is_refused() {
    let mut m = AppModel::new();
    m.update(AppMsg::ResetTimer, at(0));
    assert_eq!(m.extend(at(10), 0), Err(TimerError::InvalidDuration));
    assert_eq!(m.remaining_at(at(10)), 2_690);
    assert_eq!(m.extend(at(10), 40), Ok(()));
    assert_eq!(m.remaining_at(at(10)), 40);
    assert_eq!(m.status(), Status::Focus(0));
}

#[test]
fn commands_that_ask_for_zero_seconds_are_refused() {
    let mut m = AppModel::new();
    m.apply(Command::Start(100), at(0)).unwrap();
    for cmd in [Command::Start(0), Command::Reset(0), Command::Extend(0)] {
        assert_eq!(m.apply(cmd, at(10)), Err(TimerError::InvalidDuration));
        assert_eq!(m.remaining_at(at(10)), 90);
        assert!(!m.is_paused());
    }
}

#[test]
fn pause_and_resume_messages_freeze_and_release_the_countdown() {
    let mut m = AppModel::new();
    m.update(AppMsg::ResetTimer, at(0));
    let fx = m.update(AppMsg::PauseTimer, at(100));
    assert_eq!(fx, Effect { timer_active: false, show_dialog: false, event: None });
    assert_eq!(m.remaining_at(at(5_000)), 2_600);
    let fx = m.update(AppMsg::ResumeTimer, at(5_000));
    assert_eq!(
        fx,
        Effect { timer_active: true, show_dialog: false, event: Some(Event::Tick(2_600)) }
    );
    assert_eq!(m.remaining_at(at(5_100)), 2_500);
}

#[test]
fn resume_after_expiry_while_paused_settles_the_stage() {
    let mut m = AppModel::new();
    m.update(AppMsg::ResetTimer, at(0));
    m.update(AppMsg::PauseTimer, at(2_700));
    assert!(!m.is_pending_confirmation());
    let fx = m.update(AppMsg::ResumeTimer, at(2_800));
    assert_eq!(
        fx,
        Effect { timer_active: false, show_dialog: false, event: Some(Event::Finished) }
    );
    assert!(m.is_pending_confirmation());
    assert_eq!(m.status(), Status::Focus(0));
}

#[test]
fn commands_keep_the_paused_flag_in_step_with_the_countdown() {
    let mut m = AppModel::new();
    m.apply(Command::Pause, at(0)).unwrap();
    assert!(m.is_paused());
    m.apply(Command::Resume, at(10)).unwrap();
    assert!(!m.is_paused());
    assert!(m.timer().is_running());
    assert_eq!(m.remaining_at(at(20)), 2_690);
    m.apply(Command::Pause, at(20)).unwrap();
    assert!(m.is_paused());
    assert!(!m.timer().is_running());
    m.apply(Command::Extend(60), at(30)).unwrap();
    assert!(!m.is_paused());
    m.apply(Command::Stop, at(40)).unwrap();
    assert!(m.is_paused());
    m.apply(Command::NextStage, at(50)).unwrap();
    assert!(!m.is_paused());
}

#[test]
fn a_stage_that_runs_out_pauses_the_session_unless_it_moves_on() {
    let mut m = AppModel::new();
    m.apply(Command::Start(5), at(0)).unwrap();
    assert!(!m.tick(at(5)).timer_active);
    assert!(m.is_paused());
    assert!(m.is_pending_confirmation());
    let mut n = AppModel::with_settings(true, true);
    n.apply(Command::Start(5), at(0)).unwrap();
    assert!(n.tick(at(5)).timer_active);
    assert!(!n.is_paused());
    assert_eq!(n.status(), Status::ShortBreak(0));
}

#[test]
fn stop_command_leaves_nothing_to_count() {
    let mut m = AppModel::new();
    m.apply(Command::Start(100), at(0)).unwrap();
    m.apply(Command::Stop, at(10)).unwrap();
    assert!(m.is_paused());
    assert_eq!(m.remaining_at(at(10)), 0);
    assert_eq!(m.tick(at(11)).event, None);
    m.apply(Command::Resume, at(12)).unwrap();
    assert!(m.is_paused());
    m.apply(Command::Reset(20), at(13)).unwrap();
    assert_eq!(m.remaining_at(at(14)), 19);
}

#[test]
fn status_line() {
    let mut m = AppModel::new();
    assert_eq!(m.get_label(at(0)), "Timer 0:45:0 / 0:45:0  Running | Status: Focus(0)");
    m.update(AppMsg::ResetTimer, at(0));
    assert_eq!(m.get_label(at(61)), "Timer 0:43:59 / 0:45:0  Running | Status: Focus(0)");
    m.update(AppMsg::NextStage, at(100));
    m.update(AppMsg::PauseTimer, at(110));
    assert_eq!(m.get_label(at(500)), "Timer 0:4:50 / 0:5:0  Paused | Status: ShortBreak(0)");
}
