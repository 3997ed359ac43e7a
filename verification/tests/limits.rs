//! Rate limits, cooldowns and one-time auth events.

use floonet_name_authority::ratelimit::Limits;

#[test]
fn limit_counts_within_its_window() {
    let mut l = Limits::new();
    assert!(l.allow("a", 0, 2, 100));
    assert!(l.allow("a", 10, 2, 100));
    assert!(!l.allow("a", 20, 2, 100));
    // Another key has its own count.
    assert!(l.allow("b", 20, 2, 100));
    // The first request leaves the window; refused ones were never counted.
    assert!(l.allow("a", 100, 2, 100));
    assert!(!l.allow("a", 109, 2, 100));
    assert!(l.allow("a", 110, 2, 100));
    assert!(!l.allow("a", 111, 0, 100));
}

#[test]
fn cooldown_lasts_its_window() {
    let mut l = Limits::new();
    assert!(!l.cooldown_active("namechange:k", 50, 600));
    l.record_op("namechange:k", 100);
    assert!(l.cooldown_active("namechange:k", 699, 600));
    assert!(!l.cooldown_active("namechange:k", 700, 600));
    assert!(!l.cooldown_active("namechange:other", 100, 600));
    l.record_op("namechange:k", 800);
    assert!(l.cooldown_active("namechange:k", 900, 600));
}

#[test]
fn auth_events_count_once() {
    let mut l = Limits::new();
    assert!(l.auth_event_fresh("e1", 1000, 500));
    assert!(!l.auth_event_fresh("e1", 1000, 500));
    assert!(!l.auth_event_fresh("e1", 1499, 500));
    assert!(l.auth_event_fresh("e2", 1499, 500));
    assert!(l.auth_event_fresh("e1", 1500, 500));
}
