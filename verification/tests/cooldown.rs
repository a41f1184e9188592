use sitewatch::website_data::{wd, WebsiteData};

fn site() -> WebsiteData {
    wd("https://example.org").build().expect("valid settings")
}

#[test]
fn no_cooldown_means_run_without_countdown() {
    let mut s = site();
    assert!(s.should_website_request());
    assert_eq!(s.current_cooldown, 0);
    assert!(s.should_website_request());
}

#[test]
fn cooldown_counts_down_and_runs_on_expiry_cycle() {
    let mut s = site();
    s.current_cooldown = 3;
    assert!(!s.should_website_request());
    assert_eq!(s.current_cooldown, 2);
    assert!(!s.should_website_request());
    assert_eq!(s.current_cooldown, 1);
    assert!(s.should_website_request());
    assert_eq!(s.current_cooldown, 0);
    assert!(s.should_website_request());
}

#[test]
fn quiet_cycle_forgives_one_backoff_and_resets_streak() {
    let mut s = site();
    s.total_cooldowns = 2;
    s.changes_stacking = 3;
    s.nothing_changed();
    assert_eq!(s.total_cooldowns, 1);
    assert_eq!(s.changes_stacking, 0);
}

#[test]
fn quiet_cycle_floors_backoff_count_at_zero() {
    let mut s = site();
    s.nothing_changed();
    assert_eq!(s.total_cooldowns, 0);
    assert_eq!(s.changes_stacking, 0);
}

#[test]
fn fourth_consecutive_outcome_is_suppressed_and_backs_off() {
    let mut s = site();
    assert!(s.should_send_notification());
    assert!(s.should_send_notification());
    assert!(s.should_send_notification());
    assert!(!s.should_send_notification());
    assert_eq!(s.total_cooldowns, 1);
    assert_eq!(s.current_cooldown, 3);
    assert_eq!(s.changes_stacking, 0);
}

#[test]
fn backoff_schedule_escalates_by_powers_of_three() {
    let mut s = site();
    for _ in 0..3 {
        assert!(s.should_send_notification());
    }
    assert!(!s.should_send_notification());
    assert_eq!(s.current_cooldown, 3);
    for _ in 0..3 {
        assert!(s.should_send_notification());
    }
    assert!(!s.should_send_notification());
    assert_eq!(s.current_cooldown, 9);
    assert_eq!(s.total_cooldowns, 2);
    for _ in 0..3 {
        assert!(s.should_send_notification());
    }
    assert!(!s.should_send_notification());
    assert_eq!(s.current_cooldown, 27);
    assert_eq!(s.total_cooldowns, 3);
}

#[test]
fn run_counts_executed_checks() {
    let mut s = site();
    s.run();
    s.run();
    assert_eq!(s.get_runs(), 2);
}
