use paddle_strike::timer::{MxTimer, NANOS_PER_SECOND, RATIO_ONE};

#[test]
fn new_timer_is_stopped_and_full() {
    let t = MxTimer::new(2 * NANOS_PER_SECOND, false);
    assert!(!t.is_running());
    assert_eq!(t.get_duration(), 2_000_000_000);
    assert_eq!(t.get_time_remain(), 2_000_000_000);
    assert_eq!(t.get_time_past(), 0);
    assert_eq!(t.get_ratio(), 0);
}

#[test]
fn stopped_timer_does_not_count() {
    let mut t = MxTimer::new(1000, false);
    assert!(!t.update(5000));
    assert_eq!(t.get_time_remain(), 1000);
}

#[test]
fn running_timer_counts_down_with_ratio() {
    let mut t = MxTimer::new(1000, false);
    t.start();
    assert!(t.is_running());
    assert!(!t.update(250));
    assert_eq!(t.get_time_remain(), 750);
    assert_eq!(t.get_time_past(), 250);
    assert_eq!(t.get_ratio(), 250_000);
    assert!(!t.update(500));
    assert_eq!(t.get_ratio(), 750_000);
}

#[test]
fn ratio_rounds_down() {
    let mut t = MxTimer::new(3, false);
    t.start();
    assert!(!t.update(1));
    assert_eq!(t.get_ratio(), 333_333);
}

#[test]
fn one_shot_timer_stops_at_end() {
    let mut t = MxTimer::new(1000, false);
    t.start();
    assert!(t.update(1500));
    assert!(!t.is_running());
    assert_eq!(t.get_time_remain(), 0);
    assert_eq!(t.get_ratio(), RATIO_ONE);
    // once ended it stays ended
    assert!(!t.update(1000));
}

#[test]
fn timer_goes_off_exactly_at_zero() {
    let mut t = MxTimer::new(1000, false);
    t.start();
    assert!(!t.update(999));
    assert!(t.update(1));
}

#[test]
fn looping_timer_starts_over() {
    let mut t = MxTimer::new(1000, true);
    t.start();
    assert!(t.update(1000));
    assert!(t.is_running());
    assert_eq!(t.get_time_remain(), 1000);
    assert_eq!(t.get_ratio(), 0);
    assert!(!t.update(400));
    assert_eq!(t.get_time_remain(), 600);
}

#[test]
fn zero_duration_timer_goes_off_on_first_update() {
    let mut t = MxTimer::new(0, false);
    t.start();
    assert!(t.update(0));
    assert_eq!(t.get_ratio(), RATIO_ONE);
}

#[test]
fn paused_timer_holds_until_resumed() {
    let mut t = MxTimer::new(1000, false);
    t.start();
    t.pause();
    assert!(!t.update(2000));
    assert_eq!(t.get_time_remain(), 1000);
    assert!(t.is_running());
    t.resure();
    assert!(!t.update(100));
    assert_eq!(t.get_time_remain(), 900);
}

#[test]
fn reset_rewinds_and_stops() {
    let mut t = MxTimer::new(1000, false);
    t.start();
    t.update(300);
    t.reset();
    assert!(!t.is_running());
    assert_eq!(t.get_time_remain(), 1000);
    assert_eq!(t.get_ratio(), 0);
}

#[test]
fn jump_to_end_completes() {
    let mut t = MxTimer::new(1000, true);
    t.start();
    t.jump_to_end();
    assert!(!t.is_running());
    assert_eq!(t.get_time_past(), 1000);
    assert_eq!(t.get_ratio(), RATIO_ONE);
}

#[test]
fn set_replaces_duration() {
    let mut t = MxTimer::new(1000, false);
    t.start();
    t.update(10);
    t.set(5000, true);
    assert!(!t.is_running());
    assert_eq!(t.get_duration(), 5000);
    assert_eq!(t.get_time_remain(), 5000);
    assert_eq!(t.get_ratio(), 0);
}

#[test]
fn two_short_updates_equal_one_long() {
    let mut a = MxTimer::new(10_000, false);
    let mut b = MxTimer::new(10_000, false);
    a.start();
    b.start();
    a.update(1200);
    a.update(3400);
    b.update(4600);
    assert_eq!(a.get_time_remain(), b.get_time_remain());
    assert_eq!(a.get_ratio(), b.get_ratio());
}

#[test]
fn largest_duration_ratio_does_not_overflow() {
    let mut t = MxTimer::new(u64::MAX, false);
    t.start();
    assert!(!t.update(u64::MAX - 1));
    assert_eq!(t.get_ratio(), 999_999);
}

#[test]
fn default_timer_is_stopped_and_empty() {
    let t = MxTimer::default();
    assert!(!t.is_running());
    assert_eq!(t.get_duration(), 0);
}
