//! Recurring-schedule tracking.
//!
//! A schedule is declared as a cron expression (6 or 7 whitespace-separated
//! fields) or as a restricted English phrase ("every 5 seconds"). The library
//! normalizes the expression, parses it into a recurrence [`Rule`], and wraps
//! the rule in a [`ScheduleTimer`]: a polled due-detection state machine that
//! answers, for a caller-supplied clock reading, "has at least one occurrence
//! elapsed since I last looked", coalescing missed occurrences into a single
//! due report and never reporting the same occurrence twice.

mod expr;
mod laws;
mod presets;
mod rule;
mod tracker;

pub use expr::{
    english_cron_of, is_ascii_alpha, normalized_of, parse_expression, spec_is_english,
    ExpressionError,
};
pub use laws::{
    lemma_armed_early_fires, lemma_bootstrap_fires, lemma_first_after_monotone,
    lemma_identical_behavior,
    lemma_latest_elapsed_consumed, lemma_latest_elapsed_in_range, lemma_no_refire,
    lemma_poll_advances, lemma_reported_at_most_once, lemma_run_monotone,
    lemma_silent_before_next, run_fired, run_state,
};
pub use presets::{
    EVERY_10_AM, EVERY_10_MIN, EVERY_10_PM, EVERY_10_SEC, EVERY_11_AM, EVERY_11_PM, EVERY_12_AM,
    EVERY_12_PM, EVERY_1_AM, EVERY_1_PM, EVERY_2_AM, EVERY_2_PM, EVERY_30_MIN, EVERY_30_SEC,
    EVERY_3_AM, EVERY_3_PM, EVERY_4_AM, EVERY_4_PM, EVERY_5_AM, EVERY_5_MIN, EVERY_5_PM,
    EVERY_5_SEC, EVERY_6_AM, EVERY_6_PM, EVERY_7_AM, EVERY_7_PM, EVERY_8_AM, EVERY_8_PM,
    EVERY_9_AM, EVERY_9_PM, EVERY_DAY, EVERY_HOUR, EVERY_MIN,
};
pub use rule::{
    cron_accepts, first_occurrence_after, first_occurrence_at_or_after, rule_wf, Rule,
    LAST_OCCURRENCE_MS, MAX_TIME_MS,
};
pub use tracker::{
    latest_elapsed, latest_of, poll_spec, schedule_passed, SchedulePredicate, ScheduleTimer,
};
