//! The due-detection state machine, driven with synthetic clocks:
//! bootstrap, coalescing, non-fire before the period elapses, determinism,
//! exhausted rules, and the occurrence queries behind them.

use chrono::Local as ChronoLocal;
use cron::Schedule;
use cronjob::{schedule_passed, Rule, ScheduleTimer};
use std::str::FromStr;

/// 2024-01-01T00:00:00Z in milliseconds since the Unix epoch: a whole hour,
/// so it is an occurrence of every second/minute/hour-aligned schedule.
const T0: i64 = 1_704_067_200_000;

const SECOND: i64 = 1_000;
const MINUTE: i64 = 60_000;
const HOUR: i64 = 3_600_000;

/// Test that ScheduleTimer triggers correctly on the first check.
#[test]
fn test_schedule_timer_first_trigger() {
    // Create a timer that should trigger every second
    let mut timer = ScheduleTimer::new("* * * * * ? *").unwrap();

    // Polled exactly on a second boundary, the first check fires at once.
    let first_result = timer.poll(T0);
    assert!(first_result);

    // Once the stored trigger time lies in the past, the next check fires.
    let second_result = timer.poll(T0 + 2 * SECOND);
    assert!(
        second_result,
        "Timer should trigger when last_trigger is in the past"
    );
}

/// Test that the schedule logic works by testing the underlying Schedule
/// directly.
#[test]
fn test_schedule_passed_logic() {
    // Test with a schedule that should trigger every second
    let schedule = Schedule::from_str("* * * * * ? *").unwrap();
    let now = ChronoLocal::now();

    // Test the upcoming method works
    let next_upcoming = schedule.upcoming(ChronoLocal).next();
    assert!(
        next_upcoming.is_some(),
        "Schedule should have upcoming times"
    );

    // Test the after method works
    let past_time = now - chrono::Duration::seconds(2);
    let next_after = schedule.after(&past_time).next();
    assert!(
        next_after.is_some(),
        "Schedule should have times after past time"
    );

    // Verify that upcoming and after can return different results
    if let (Some(_upcoming), Some(after)) = (next_upcoming, next_after) {
        // The next upcoming time should generally be >= now
        // The next after past_time should be > past_time
        assert!(
            after > past_time,
            "After time should be greater than reference time"
        );
    }
}

/// Immediate-due bootstrap: a tracker for "every second" polled exactly at
/// a second boundary fires on that very first poll.
#[test]
fn test_bootstrap_immediate_due() {
    let mut timer = ScheduleTimer::new("every second").unwrap();
    assert!(timer.poll(T0));
}

/// A first poll slightly past a second boundary does not fire, but the next
/// poll at or after the upcoming occurrence does: arming early loses
/// nothing.
#[test]
fn test_bootstrap_off_boundary() {
    let mut timer = ScheduleTimer::new("* * * * * ? *").unwrap();
    assert!(!timer.poll(T0 + 300));
    assert!(timer.poll(T0 + SECOND));
}

/// Coalescing: ten elapsed occurrences of an every-second rule collapse
/// into one due report; a poll half a second later is silent, and the next
/// boundary fires again.
#[test]
fn test_coalescing() {
    let mut timer = ScheduleTimer::new("* * * * * ? *").unwrap();
    assert!(timer.poll(T0));
    assert!(timer.poll(T0 + 10 * SECOND));
    assert!(!timer.poll(T0 + 10 * SECOND + 500));
    assert!(timer.poll(T0 + 11 * SECOND));
}

/// Monotonic non-fire before the period elapses: an hourly rule polled one
/// second past the hour is silent, and polled one second past the next hour
/// it fires.
#[test]
fn test_hourly_not_due_early() {
    let mut timer = ScheduleTimer::new("every hour").unwrap();
    assert!(!timer.poll(T0 + SECOND));
    assert!(timer.poll(T0 + HOUR + SECOND));
}

/// Idempotent construction: two timers built from the same expression give
/// identical answers for the same sequence of instants.
#[test]
fn test_idempotent_construction() {
    let mut a = ScheduleTimer::new("every 5 seconds").unwrap();
    let mut b = ScheduleTimer::new("every 5 seconds").unwrap();
    let instants = [
        T0,
        T0 + 2 * SECOND,
        T0 + 7 * SECOND,
        T0 + 7 * SECOND + 1,
        T0 + 30 * SECOND,
        T0 + 31 * SECOND,
    ];
    for now in instants {
        assert_eq!(a.poll(now), b.poll(now));
    }
}

/// The predicate form shares the timer's state machine: same expression,
/// same instants, same answers.
#[test]
fn test_predicate_matches_timer() {
    let mut timer = ScheduleTimer::new("every 5 seconds").unwrap();
    let mut pred = schedule_passed("every 5 seconds").unwrap();
    let instants = [T0, T0 + 4 * SECOND, T0 + 5 * SECOND, T0 + 60 * SECOND];
    for now in instants {
        assert_eq!(timer.poll(now), pred.check(now));
    }
}

/// Round trip of English forms: "every 5 seconds" normalizes to the
/// canonical constant, and the rule it parses to produces occurrences
/// exactly 5 seconds apart from any boundary divisible by 5.
#[test]
fn test_round_trip_every_5_seconds() {
    let canonical = cronjob::parse_expression("every 5 seconds").unwrap();
    assert_eq!(canonical, cronjob::EVERY_5_SEC);

    let rule = Rule::parse(&canonical).unwrap();
    assert_eq!(rule.first_at_or_after(T0), Some(T0));
    let mut occurrence = T0;
    for step in 1..=5 {
        occurrence = rule.first_after(occurrence).unwrap();
        assert_eq!(occurrence, T0 + step * 5 * SECOND);
    }
}

/// The occurrence queries return the exact next instants of a
/// minute-aligned rule, strictly after and at-or-after.
#[test]
fn test_occurrence_queries_exact() {
    let rule = Rule::parse(cronjob::EVERY_MIN).unwrap();
    assert_eq!(rule.first_after(T0 + 30 * SECOND), Some(T0 + MINUTE));
    assert_eq!(rule.first_after(T0), Some(T0 + MINUTE));
    assert_eq!(rule.first_at_or_after(T0), Some(T0));
    assert_eq!(rule.first_at_or_after(T0 + 1), Some(T0 + MINUTE));
}

/// A rule bounded to a past year is exhausted: its queries return nothing
/// and a timer over it is a permanent, error-free not-due.
#[test]
fn test_exhausted_rule() {
    let rule = Rule::parse("0 0 0 1 1 ? 1971").unwrap();
    assert_eq!(rule.first_after(T0), None);

    let mut timer = ScheduleTimer::new("0 0 0 1 1 ? 1971").unwrap();
    assert!(!timer.poll(T0));
    assert!(!timer.poll(T0 + HOUR));
}

/// The time axis starts at the Unix epoch, and the epoch itself is an
/// occurrence of an every-second rule.
#[test]
fn test_poll_at_epoch() {
    let mut timer = ScheduleTimer::new("* * * * * ? *").unwrap();
    assert!(timer.poll(0));
    assert!(!timer.poll(500));
    assert!(timer.poll(SECOND));
}

/// A clock that jumps backwards does not unfire or double-fire: an armed
/// timer polled before its stored occurrence is simply silent.
#[test]
fn test_poll_time_regression() {
    let mut timer = ScheduleTimer::new("* * * * * ? *").unwrap();
    assert!(timer.poll(T0 + 10 * SECOND));
    assert!(!timer.poll(T0 + 5 * SECOND));
    assert!(timer.poll(T0 + 11 * SECOND));
}

/// A daily 9 AM rule fires once per day, at the first poll past 9 AM.
#[test]
fn test_daily_rule() {
    let mut timer = ScheduleTimer::new("every day at 9 am").unwrap();
    assert!(!timer.poll(T0));
    assert!(!timer.poll(T0 + 8 * HOUR));
    assert!(timer.poll(T0 + 9 * HOUR + 17 * MINUTE));
    assert!(!timer.poll(T0 + 10 * HOUR));
    assert!(timer.poll(T0 + 33 * HOUR + SECOND));
}
