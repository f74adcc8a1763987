use ytracker::rate_limiter::RateLimiter;
use ytracker::timer::Timer;

#[test]
fn a_new_timer_is_idle() {
    let timer = Timer::new();
    let state = timer.state_at(100);
    assert!(!state.active);
    assert_eq!(state.issue_key, None);
    assert_eq!(state.issue_summary, None);
    assert_eq!(state.start_time, None);
    assert_eq!(state.elapsed, 0);
}

#[test]
fn a_started_timer_reads_the_time_since_its_start() {
    let mut timer = Timer::new();
    timer.start_at(1000, "ABC-1".to_string(), Some("Summary".to_string()));
    let state = timer.state_at(1060);
    assert!(state.active);
    assert_eq!(state.issue_key.as_deref(), Some("ABC-1"));
    assert_eq!(state.issue_summary.as_deref(), Some("Summary"));
    assert_eq!(state.start_time, Some(1000));
    assert_eq!(state.elapsed, 60);
    assert_eq!(timer.state_at(1000).elapsed, 0);
    assert_eq!(timer.state_at(999).elapsed, 0);
}

#[test]
fn stop_returns_elapsed_and_key_and_leaves_the_timer_idle() {
    let mut timer = Timer::new();
    timer.start_at(1000, "ABC-1".to_string(), None);
    assert_eq!(timer.stop_at(1100), (100, Some("ABC-1".to_string())));
    let state = timer.state_at(1200);
    assert!(!state.active);
    assert_eq!(state.issue_key, None);
    assert_eq!(state.start_time, None);
    assert_eq!(state.elapsed, 0);
}

#[test]
fn stop_on_an_idle_timer_is_a_no_op_however_often_it_is_called() {
    let mut timer = Timer::new();
    for now in [0u64, 5, 1_000_000, u64::MAX] {
        assert_eq!(timer.stop_at(now), (0, None));
        assert!(!timer.state_at(now).active);
    }
    timer.start_at(10, "K-1".to_string(), None);
    assert_eq!(timer.stop_at(25), (15, Some("K-1".to_string())));
    for _ in 0..3 {
        assert_eq!(timer.stop_at(30), (0, None));
        assert_eq!(timer.stop(), (0, None));
    }
}

#[test]
fn stop_with_a_clock_before_the_start_gives_zero() {
    let mut timer = Timer::new();
    timer.start_at(1000, "K-1".to_string(), None);
    assert_eq!(timer.stop_at(900), (0, Some("K-1".to_string())));
}

#[test]
fn elapsed_never_goes_down_while_the_timer_runs() {
    let mut timer = Timer::new();
    timer.start_at(500, "K-1".to_string(), None);
    let mut last = 0;
    for now in [400u64, 500, 501, 560, 560, 4100, 1_000_000] {
        let elapsed = timer.state_at(now).elapsed;
        assert!(elapsed >= last);
        last = elapsed;
    }
    assert_eq!(last, 999_500);
}

#[test]
fn the_last_start_wins() {
    let mut timer = Timer::new();
    timer.start_at(100, "A-1".to_string(), Some("first".to_string()));
    timer.start_at(200, "B-2".to_string(), None);
    let state = timer.state_at(230);
    assert_eq!(state.issue_key.as_deref(), Some("B-2"));
    assert_eq!(state.issue_summary, None);
    assert_eq!(state.start_time, Some(200));
    assert_eq!(state.elapsed, 30);
    assert_eq!(timer.stop_at(260), (60, Some("B-2".to_string())));
}

#[test]
fn notifications_are_due_once_per_interval() {
    let mut timer = Timer::new();
    assert!(timer.check_notification_due_at(60, 5000).is_none());
    timer.start_at(1000, "K-1".to_string(), Some("s".to_string()));
    assert!(timer.check_notification_due_at(0, 5000).is_none());
    assert!(timer.check_notification_due_at(60, 1059).is_none());
    let first = timer.check_notification_due_at(60, 1060).expect("due after one interval");
    assert!(first.active);
    assert_eq!(first.issue_key.as_deref(), Some("K-1"));
    assert_eq!(first.elapsed, 60);
    assert!(timer.check_notification_due_at(60, 1100).is_none());
    assert!(timer.check_notification_due_at(60, 1119).is_none());
    let second = timer.check_notification_due_at(60, 1120).expect("due after another interval");
    assert_eq!(second.elapsed, 120);
    assert!(timer.check_notification_due_at(60, 900).is_none());
    timer.stop_at(1200);
    assert!(timer.check_notification_due_at(60, 9999).is_none());
    timer.start_at(2000, "K-2".to_string(), None);
    assert!(timer.check_notification_due_at(60, 2059).is_none());
    assert!(timer.check_notification_due_at(60, 2060).is_some());
}

#[test]
fn the_clock_drives_start_stop_and_reads() {
    let before = Timer::now_secs();
    assert!(before > 1_600_000_000);
    let mut timer = Timer::new();
    assert!(!timer.get_state().active);
    assert!(timer.check_notification_due(1).is_none());
    timer.start("K-9".to_string(), Some("  summary ".to_string()));
    let state = timer.get_state();
    assert!(state.active);
    assert_eq!(state.issue_key.as_deref(), Some("K-9"));
    assert_eq!(state.issue_summary.as_deref(), Some("  summary "));
    let start = state.start_time.expect("start time");
    assert!(start >= before && start <= before + 5);
    assert!(state.elapsed <= 5);
    assert!(timer.check_notification_due(0).is_none());
    assert!(timer.check_notification_due(3600).is_none());
    let (elapsed, key) = timer.stop();
    assert!(elapsed <= 5);
    assert_eq!(key.as_deref(), Some("K-9"));
    assert!(!timer.get_state().active);
}

#[test]
fn the_first_hit_never_waits() {
    let limiter = RateLimiter::new(500);
    assert_eq!(limiter.cooldown(), 500);
    for now in [0u64, 1, 499, 500, u64::MAX] {
        assert_eq!(limiter.wait_before_hit(now), 0);
    }
}

#[test]
fn a_hit_waits_for_the_rest_of_the_cooldown() {
    let mut limiter = RateLimiter::new(500);
    limiter.record_hit(1000);
    assert_eq!(limiter.wait_before_hit(1000), 500);
    assert_eq!(limiter.wait_before_hit(1001), 499);
    assert_eq!(limiter.wait_before_hit(1200), 300);
    assert_eq!(limiter.wait_before_hit(1499), 1);
    assert_eq!(limiter.wait_before_hit(1500), 0);
    assert_eq!(limiter.wait_before_hit(9000), 0);
    assert_eq!(limiter.wait_before_hit(900), 500);
    assert_eq!(limiter.cooldown(), 500);
    let zero = RateLimiter::new(0);
    assert_eq!(zero.wait_before_hit(5), 0);
}

#[test]
fn two_hits_in_a_row_are_at_least_one_cooldown_apart() {
    for cooldown in [0u64, 1, 250, 500, 10_000] {
        for gap in [0u64, 1, 100, 249, 250, 499, 500, 501, 20_000] {
            let mut limiter = RateLimiter::new(cooldown);
            let first = 1_000_000;
            limiter.record_hit(first);
            let arrival = first + gap;
            let second = arrival + limiter.wait_before_hit(arrival);
            limiter.record_hit(second);
            assert!(second - first >= cooldown, "cooldown {} gap {}", cooldown, gap);
            assert!(second - arrival <= cooldown);
        }
    }
}
