use ark_server_manager::clock::Timestamp;
use ark_server_manager::health::{
    calculate_uptime_seconds, decide_auto_restart, health_figures, stable_for_reset,
    RestartDecision, RestartTracker,
};

fn now() -> Timestamp {
    let t = chrono::Utc::now();
    Timestamp::new(t.timestamp(), t.timestamp_subsec_nanos())
}

fn at(secs: i64, nanos: u32) -> Timestamp {
    Timestamp::new(secs, nanos)
}

#[test]
fn test_restart_tracker_new() {
    let tracker = RestartTracker::new();
    assert_eq!(tracker.get_attempt_count("test", now()), 0);
}

#[test]
fn test_restart_tracker_record_attempt() {
    let mut tracker = RestartTracker::new();
    tracker.record_attempt("test", true, now());
    assert_eq!(tracker.get_attempt_count("test", now()), 1);
    tracker.record_attempt("test", false, now());
    assert_eq!(tracker.get_attempt_count("test", now()), 2);
}

#[test]
fn test_restart_tracker_should_allow() {
    let mut tracker = RestartTracker::new();
    assert!(tracker.should_allow_restart("test", 3, now()));
    tracker.record_attempt("test", false, now());
    assert!(tracker.should_allow_restart("test", 3, now()));
    tracker.record_attempt("test", false, now());
    tracker.record_attempt("test", false, now());
    assert!(!tracker.should_allow_restart("test", 3, now()));
    // But should allow for different profile
    assert!(tracker.should_allow_restart("other", 3, now()));
}

#[test]
fn attempts_leave_the_window_after_five_minutes() {
    let mut tracker = RestartTracker::new();
    tracker.record_attempt("p", false, at(1_000, 0));
    tracker.record_attempt("p", false, at(1_200, 500));
    assert_eq!(tracker.get_attempt_count("p", at(1_250, 0)), 2);
    // exactly five minutes after the first: it no longer counts
    assert_eq!(tracker.get_attempt_count("p", at(1_300, 0)), 1);
    assert_eq!(tracker.get_attempt_count("p", at(1_500, 500)), 0);
    assert_eq!(tracker.get_attempt_count("p", at(1_500, 499)), 1);
    tracker.cleanup_old_attempts(at(1_300, 0));
    assert_eq!(tracker.get_attempt_count("p", at(1_300, 0)), 1);
    tracker.cleanup_old_attempts(at(2_000, 0));
    assert_eq!(tracker.get_attempt_count("p", at(1_250, 0)), 0);
}

#[test]
fn stable_reset_keeps_recent_attempts() {
    let mut tracker = RestartTracker::new();
    tracker.record_attempt("p", false, at(100, 0));
    tracker.record_attempt("p", true, at(500, 0));
    tracker.reset_if_stable("p", 300, at(700, 0));
    assert_eq!(tracker.get_attempt_count("p", at(500, 0)), 1);
    tracker.reset_if_stable("q", 300, at(700, 0));
    assert_eq!(tracker.get_attempt_count("q", at(700, 0)), 0);
}

#[test]
fn auto_restart_decisions() {
    let mut tracker = RestartTracker::new();
    let t = at(10_000, 0);
    assert_eq!(decide_auto_restart(&tracker, "p", false, 3, t), RestartDecision::Disabled);
    assert_eq!(decide_auto_restart(&tracker, "p", true, 3, t), RestartDecision::Restart);
    assert_eq!(decide_auto_restart(&tracker, "p", true, 0, t), RestartDecision::Exhausted);
    for _ in 0..3 {
        tracker.record_attempt("p", false, t);
    }
    assert_eq!(decide_auto_restart(&tracker, "p", true, 3, t), RestartDecision::Exhausted);
    assert_eq!(decide_auto_restart(&tracker, "p", true, 4, t), RestartDecision::Restart);
    assert_eq!(decide_auto_restart(&tracker, "p", true, 3, at(10_300, 0)), RestartDecision::Restart);
}

#[test]
fn uptime_in_whole_seconds() {
    assert_eq!(calculate_uptime_seconds(&at(100, 0), &at(160, 999_999_999)), 60);
    assert_eq!(calculate_uptime_seconds(&at(100, 500), &at(101, 499)), 0);
    assert_eq!(calculate_uptime_seconds(&at(100, 500), &at(101, 500)), 1);
    assert_eq!(calculate_uptime_seconds(&at(200, 0), &at(100, 0)), 0);
    assert_eq!(
        calculate_uptime_seconds(&at(-62_135_596_800, 0), &at(253_402_300_799, 999_999_999)),
        315_537_897_599
    );
    assert!(!stable_for_reset(300));
    assert!(stable_for_reset(301));
}

#[test]
fn health_figures_of_a_server() {
    let h = health_figures(3 * 1024 * 1024 + 5, Some(4), Some(24), true, at(0, 0), at(90, 0));
    assert_eq!(h.memory_mb, 3);
    assert_eq!(h.player_count, 4);
    assert_eq!(h.max_players, 24);
    assert_eq!(h.uptime_seconds, 90);
    let h = health_figures(0, None, None, false, at(0, 0), at(90, 0));
    assert_eq!(h.player_count, 0);
    assert_eq!(h.max_players, 70);
    assert_eq!(h.uptime_seconds, 0);
}
