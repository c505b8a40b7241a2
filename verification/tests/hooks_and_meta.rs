//! Dispatch bookkeeping and the ping reply.

use jukebox::hooks::{CommandCounter, CommandKind, RateDecision, RateLimiter};
use jukebox::meta::{ping_reply, PingReply};

#[test]
fn counter_records_each_invocation() {
    let mut c = CommandCounter::new();
    assert_eq!(c.count(CommandKind::Play), 0);
    c.record(CommandKind::Play);
    c.record(CommandKind::Play);
    c.record(CommandKind::Skip);
    assert_eq!(c.count(CommandKind::Play), 2);
    assert_eq!(c.count(CommandKind::Skip), 1);
}

#[test]
fn counter_kinds_are_independent() {
    let mut c = CommandCounter::new();
    c.record(CommandKind::Pause);
    assert_eq!(c.count(CommandKind::Resume), 0);
    assert_eq!(c.count(CommandKind::Ping), 0);
    assert_eq!(c.count(CommandKind::Pause), 1);
}

#[test]
fn rate_limit_proceeds_under_the_allowance() {
    let mut rl = RateLimiter::new(2, 10);
    assert_eq!(rl.check(5, 0), RateDecision::Proceed);
    assert_eq!(rl.check(5, 1), RateDecision::Proceed);
}

#[test]
fn rate_limit_first_violation_notifies_with_retry_after() {
    let mut rl = RateLimiter::new(2, 10);
    rl.check(5, 0);
    rl.check(5, 1);
    // Third invocation in the window that opened at 0: 8 units remain.
    assert_eq!(rl.check(5, 2), RateDecision::Notify { retry_after: 8 });
}

#[test]
fn rate_limit_repeated_violations_drop_silently() {
    let mut rl = RateLimiter::new(2, 10);
    rl.check(5, 0);
    rl.check(5, 1);
    rl.check(5, 2);
    assert_eq!(rl.check(5, 3), RateDecision::Dropped);
    assert_eq!(rl.check(5, 9), RateDecision::Dropped);
}

#[test]
fn rate_limit_window_expiry_resets_the_bucket() {
    let mut rl = RateLimiter::new(2, 10);
    rl.check(5, 0);
    rl.check(5, 1);
    assert_eq!(rl.check(5, 2), RateDecision::Notify { retry_after: 8 });
    // The window opened at 0 is over at 10: a fresh allowance, and a
    // fresh first violation is announced again later.
    assert_eq!(rl.check(5, 10), RateDecision::Proceed);
    assert_eq!(rl.check(5, 11), RateDecision::Proceed);
    assert_eq!(rl.check(5, 12), RateDecision::Notify { retry_after: 8 });
}

#[test]
fn rate_limit_scopes_are_independent() {
    let mut rl = RateLimiter::new(1, 10);
    assert_eq!(rl.check(5, 0), RateDecision::Proceed);
    assert_eq!(rl.check(6, 0), RateDecision::Proceed);
    assert!(matches!(rl.check(5, 1), RateDecision::Notify { .. }));
    assert_eq!(rl.check(6, 1), RateDecision::Notify { retry_after: 9 });
}

#[test]
fn ping_reports_the_latency_when_measured() {
    assert_eq!(ping_reply(Some(23)), PingReply::Latency { ms: 23 });
}

#[test]
fn ping_reports_when_no_latency_is_available_yet() {
    assert_eq!(ping_reply(None), PingReply::Unavailable);
}
