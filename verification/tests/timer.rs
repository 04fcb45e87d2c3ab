use rest_reminder::{AppConfig, AppState, Reminder};

const SECOND: u128 = 1_000_000_000;
const MINUTE: u128 = 60 * SECOND;

fn reminder(work: u64, rest: u64) -> Reminder {
    Reminder::new(AppConfig::new(work, rest).unwrap(), false)
}

#[test]
fn new_reminder_is_paused_with_full_work_phase() {
    let r = Reminder::new(AppConfig::default(), false);
    assert_eq!(r.state(), AppState::Paused);
    assert_eq!(r.remaining(), 25 * MINUTE);
    assert_eq!(r.anchor(), None);
    let flags = r.flags();
    assert!(!flags.show && !flags.hide && !flags.minimize && !flags.quit);
    assert!(!flags.fullscreen_target && !flags.fullscreen_applied);
    assert!(!r.overlay_mode());
    assert!(!r.auto_start_enabled());
}

#[test]
fn new_reminder_takes_its_durations_from_the_config() {
    let r = reminder(40, 7);
    assert_eq!(r.remaining(), 40 * MINUTE);
    assert_eq!(r.config().work_minutes(), 40);
    assert_eq!(r.config().rest_minutes(), 7);
}

#[test]
fn start_work_begins_a_full_working_phase() {
    let mut r = reminder(25, 5);
    r.start_rest(10);
    r.start_work(1_000);
    assert_eq!(r.state(), AppState::Working);
    assert_eq!(r.anchor(), Some(1_000));
    assert_eq!(r.remaining(), 25 * MINUTE);
    assert!(!r.flags().fullscreen_target);
    assert!(!r.overlay_mode());
}

#[test]
fn start_rest_asks_for_the_overlay_and_cancels_a_hide() {
    let mut r = reminder(25, 5);
    r.request_hide();
    assert!(r.flags().hide);
    r.start_rest(77);
    assert_eq!(r.state(), AppState::Resting);
    assert_eq!(r.anchor(), Some(77));
    assert_eq!(r.remaining(), 5 * MINUTE);
    assert!(r.flags().fullscreen_target);
    assert!(r.overlay_mode());
    assert!(!r.flags().hide);
}

#[test]
fn pause_takes_the_elapsed_time_off() {
    let mut r = reminder(25, 5);
    r.start_work(100);
    r.pause(100 + 90 * SECOND);
    assert_eq!(r.state(), AppState::Paused);
    assert_eq!(r.anchor(), None);
    assert_eq!(r.remaining(), 25 * MINUTE - 90 * SECOND);
    assert!(!r.flags().fullscreen_target);
}

#[test]
fn pause_floors_the_remaining_time_at_zero() {
    let mut r = reminder(25, 5);
    r.start_work(0);
    r.pause(26 * MINUTE);
    assert_eq!(r.remaining(), 0);
    assert_eq!(r.state(), AppState::Paused);

    let mut far = reminder(1, 1);
    far.start_work(5);
    far.pause(u128::MAX);
    assert_eq!(far.remaining(), 0);
}

#[test]
fn pause_at_exactly_the_remaining_time_leaves_nothing() {
    let mut r = reminder(25, 5);
    r.start_work(0);
    r.pause(25 * MINUTE);
    assert_eq!(r.remaining(), 0);
}

#[test]
fn pause_while_paused_keeps_the_remaining_time() {
    let mut r = reminder(25, 5);
    r.start_work(0);
    r.pause(MINUTE);
    r.pause(20 * MINUTE);
    assert_eq!(r.remaining(), 24 * MINUTE);
    assert_eq!(r.state(), AppState::Paused);
}

#[test]
fn pause_during_rest_drops_the_overlay() {
    let mut r = reminder(25, 5);
    r.start_rest(0);
    r.pause(MINUTE);
    assert_eq!(r.state(), AppState::Paused);
    assert_eq!(r.remaining(), 4 * MINUTE);
    assert!(!r.flags().fullscreen_target);
}

#[test]
fn start_work_then_pause_at_once_leaves_the_full_phase() {
    let mut r = reminder(25, 5);
    r.start_work(123_456);
    r.pause(123_456);
    assert_eq!(r.remaining(), 25 * MINUTE);

    let mut late = reminder(25, 5);
    late.start_work(123_456);
    late.pause(123_456 + 3_000);
    assert_eq!(late.remaining(), 25 * MINUTE - 3_000);
}

#[test]
fn a_clock_that_reads_earlier_than_the_anchor_counts_as_no_time() {
    let mut r = reminder(25, 5);
    r.start_work(1_000);
    assert_eq!(r.elapsed(400), 0);
    r.tick(400);
    assert_eq!(r.remaining(), 25 * MINUTE);
    assert_eq!(r.anchor(), Some(400));
    r.pause(100);
    assert_eq!(r.remaining(), 25 * MINUTE);
}

#[test]
fn elapsed_is_zero_while_paused() {
    let r = reminder(25, 5);
    assert_eq!(r.elapsed(5 * MINUTE), 0);
}

#[test]
fn tick_while_paused_changes_nothing() {
    let mut r = reminder(25, 5);
    r.tick(100 * MINUTE);
    assert_eq!(r.state(), AppState::Paused);
    assert_eq!(r.remaining(), 25 * MINUTE);
    assert_eq!(r.anchor(), None);
    assert_eq!(r.flags(), Reminder::new(AppConfig::default(), false).flags());
}

#[test]
fn tick_counts_down_and_moves_the_anchor() {
    let mut r = reminder(25, 5);
    r.start_work(0);
    r.tick(10 * SECOND);
    assert_eq!(r.state(), AppState::Working);
    assert_eq!(r.remaining(), 25 * MINUTE - 10 * SECOND);
    assert_eq!(r.anchor(), Some(10 * SECOND));
    r.tick(15 * SECOND);
    assert_eq!(r.remaining(), 25 * MINUTE - 15 * SECOND);
    assert_eq!(r.anchor(), Some(15 * SECOND));
}

#[test]
fn many_small_ticks_arrive_where_one_large_tick_does() {
    let mut often = reminder(25, 5);
    often.start_work(0);
    let mut now = 0;
    while now < 10 * MINUTE {
        now += 50_000_000;
        often.tick(now);
    }
    let mut once = reminder(25, 5);
    once.start_work(0);
    once.tick(10 * MINUTE);
    assert_eq!(often.remaining(), once.remaining());
    assert_eq!(often.anchor(), once.anchor());
    assert_eq!(often.state(), once.state());
}

#[test]
fn tick_one_nanosecond_before_expiry_keeps_working() {
    let mut r = reminder(25, 5);
    r.start_work(0);
    r.tick(25 * MINUTE - 1);
    assert_eq!(r.state(), AppState::Working);
    assert_eq!(r.remaining(), 1);
}

#[test]
fn tick_at_expiry_while_working_starts_rest() {
    let mut r = reminder(25, 5);
    r.start_work(7);
    r.tick(7 + 25 * MINUTE);
    assert_eq!(r.state(), AppState::Resting);
    assert_eq!(r.remaining(), 5 * MINUTE);
    assert_eq!(r.anchor(), Some(7 + 25 * MINUTE));
    assert!(r.flags().fullscreen_target);
    assert!(!r.flags().minimize);
}

#[test]
fn tick_past_expiry_while_working_starts_a_full_rest() {
    let mut r = reminder(25, 5);
    r.start_work(0);
    r.tick(90 * MINUTE);
    assert_eq!(r.state(), AppState::Resting);
    assert_eq!(r.remaining(), 5 * MINUTE);
    assert_eq!(r.anchor(), Some(90 * MINUTE));
}

#[test]
fn tick_at_expiry_while_resting_pauses_with_a_full_work_phase() {
    let mut r = reminder(25, 5);
    r.start_rest(0);
    r.tick(5 * MINUTE);
    assert_eq!(r.state(), AppState::Paused);
    assert_eq!(r.remaining(), 25 * MINUTE);
    assert_eq!(r.anchor(), None);
    assert!(r.flags().minimize);
    assert!(!r.flags().fullscreen_target);
}

#[test]
fn a_work_phase_followed_by_a_rest_phase() {
    let mut r = reminder(25, 5);
    r.start_work(0);
    r.tick(25 * 60 * SECOND);
    assert_eq!(r.state(), AppState::Resting);
    assert_eq!(r.remaining(), 300 * SECOND);
    r.tick(25 * 60 * SECOND + 300 * SECOND);
    assert_eq!(r.state(), AppState::Paused);
    assert_eq!(r.remaining(), 1500 * SECOND);
    assert!(r.flags().minimize);
}

#[test]
fn skip_rest_ends_the_rest_early() {
    let mut r = reminder(25, 5);
    r.start_rest(0);
    r.tick(MINUTE);
    r.skip_rest();
    assert_eq!(r.state(), AppState::Paused);
    assert_eq!(r.remaining(), 25 * MINUTE);
    assert_eq!(r.anchor(), None);
    assert!(r.flags().minimize);
    assert!(!r.flags().fullscreen_target);
    assert!(!r.overlay_mode());
}

#[test]
fn new_durations_count_from_the_next_phase() {
    let mut r = reminder(25, 5);
    r.start_work(0);
    r.pause(MINUTE);
    assert!(r.set_work_input("50"));
    assert!(r.set_rest_input("10"));
    assert_eq!(r.remaining(), 24 * MINUTE);
    r.start_work(2 * MINUTE);
    assert_eq!(r.remaining(), 50 * MINUTE);
    r.start_rest(3 * MINUTE);
    assert_eq!(r.remaining(), 10 * MINUTE);
}

#[test]
fn the_largest_durations_do_not_overflow() {
    let mut r = reminder(u64::MAX, u64::MAX);
    assert_eq!(r.remaining(), u64::MAX as u128 * MINUTE);
    r.start_work(u128::MAX);
    r.tick(u128::MAX);
    assert_eq!(r.remaining(), u64::MAX as u128 * MINUTE);
    assert_eq!(r.state(), AppState::Working);
}

#[test]
fn refresh_is_fastest_while_resting() {
    let mut r = reminder(25, 5);
    assert_eq!(r.refresh_millis(), 50);
    r.start_work(0);
    assert_eq!(r.refresh_millis(), 100);
    r.start_rest(0);
    assert_eq!(r.refresh_millis(), 16);
}

#[test]
fn a_failed_auto_start_switch_keeps_the_old_setting() {
    let mut r = Reminder::new(AppConfig::default(), false);
    r.record_auto_start(true, false);
    assert!(!r.auto_start_enabled());
    r.record_auto_start(true, true);
    assert!(r.auto_start_enabled());
    r.record_auto_start(false, false);
    assert!(r.auto_start_enabled());
    r.record_auto_start(false, true);
    assert!(!r.auto_start_enabled());
}

#[test]
fn an_anchor_is_held_exactly_while_a_phase_runs() {
    let mut r = reminder(2, 1);
    let mut now = 0;
    let check = |r: &Reminder| {
        assert_eq!(r.anchor().is_some(), r.state() != AppState::Paused);
        assert!(r.config().work_minutes() > 0 && r.config().rest_minutes() > 0);
    };
    check(&r);
    r.start_work(now);
    check(&r);
    for step in 0..400 {
        now += SECOND;
        if step == 30 {
            r.pause(now);
        }
        if step == 40 {
            r.start_work(now);
        }
        if step == 300 {
            r.start_rest(now);
        }
        if step == 310 {
            r.skip_rest();
        }
        if step == 320 {
            r.set_work_input("0");
            r.set_rest_input("x");
        }
        r.update(now, &vec![], step % 7 == 0);
        check(&r);
    }
}
