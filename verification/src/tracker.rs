//! The trigger tracker: a polled due-detection state machine over one
//! recurrence rule.
//!
//! A timer is `Unarmed` until its first poll and `Armed(last)` afterwards,
//! where `last` is the most recently reported occurrence — or, before the
//! first due report, the instant one millisecond before the first upcoming
//! occurrence, so that the armed search (which looks strictly *after*
//! `last`) still finds that occurrence. Each poll reports due at most once,
//! coalescing every occurrence that elapsed since the previous poll into a
//! single report and advancing `last` to the most recent of them.

use vstd::prelude::*;

use crate::expr::{normalized_of, parse_expression, ExpressionError};
use crate::rule::{
    cron_accepts, first_occurrence_after, first_occurrence_at_or_after, rule_wf, Rule,
    LAST_OCCURRENCE_MS, MAX_TIME_MS,
};

verus! {

/// `rest` where it reports an occurrence, else the fallback occurrence `c`.
pub open spec fn latest_of(c: int, rest: Option<int>) -> Option<int> {
    match rest {
        Some(d) => Some(d),
        None => Some(c),
    }
}

/// The most recent occurrence in the half-open interval `(last, now]`,
/// found by walking the occurrence oracle forward from `last`, or `None`
/// where no occurrence lies in that interval.
pub open spec fn latest_elapsed(e: Seq<char>, last: int, now: int) -> Option<int>
    decreases now - last,
{
    match first_occurrence_after(e, last) {
        None => None,
        Some(c) => if !(last < c && c <= now) {
            None
        } else {
            latest_of(c, latest_elapsed(e, c, now))
        },
    }
}

/// The due-detection state machine: from the expression, the stored
/// last-fired state and the poll instant, the state after the poll and
/// whether the poll reports due.
///
/// Unarmed: the first occurrence at or after `now` either is due at `now`
/// itself, or arms the timer one millisecond before it without firing; a
/// rule with no occurrence ahead leaves the timer unarmed. Armed: the most
/// recent occurrence elapsed since `last` is reported and stored, or the
/// poll is silent.
pub open spec fn poll_spec(e: Seq<char>, last: Option<int>, now: int) -> (Option<int>, bool) {
    match last {
        None => {
            match first_occurrence_at_or_after(e, now) {
                None => (None, false),
                Some(c) => if c <= now {
                    (Some(c), true)
                } else {
                    (Some(c - 1), false)
                },
            }
        },
        Some(l) => {
            match latest_elapsed(e, l, now) {
                None => (Some(l), false),
                Some(c) => (Some(c), true),
            }
        },
    }
}

/// A scheduled trigger: one recurrence rule and the single piece of mutable
/// state of the due-detection machine.
pub struct ScheduleTimer {
    rule: Rule,
    last_trigger: Option<i64>,
}

impl ScheduleTimer {
    #[verifier::type_invariant]
    closed spec fn inv(&self) -> bool {
        &&& cron_accepts(self.rule@)
        &&& rule_wf(self.rule@)
        &&& match self.last_trigger {
            Some(l) => -1 <= l <= MAX_TIME_MS,
            None => true,
        }
    }

    /// The canonical cron expression driving this timer.
    pub closed spec fn expr(&self) -> Seq<char> {
        self.rule@
    }

    /// The last-fired state: the most recently reported or armed occurrence
    /// instant, or `None` before bootstrap.
    pub closed spec fn last_fired(&self) -> Option<int> {
        match self.last_trigger {
            Some(l) => Some(l as int),
            None => None,
        }
    }

    /// Builds an unarmed timer from a schedule expression, normalizing the
    /// expression first. Fails with `Untranslatable` exactly where the
    /// expression is English and no translation rule matches, and with
    /// `InvalidSyntax` exactly where the normalized expression is not
    /// canonical cron syntax.
    pub fn new(expression: &str) -> (r: Result<ScheduleTimer, ExpressionError>)
        ensures
            match r {
                Ok(timer) => {
                    &&& normalized_of(expression@) == Some(timer.expr())
                    &&& cron_accepts(timer.expr())
                    &&& rule_wf(timer.expr())
                    &&& timer.last_fired() is None
                },
                Err(e) => match e {
                    ExpressionError::Untranslatable => normalized_of(expression@) is None,
                    ExpressionError::InvalidSyntax => {
                        normalized_of(expression@) matches Some(c) && !cron_accepts(c)
                    },
                },
            },
    {
        let canonical = match parse_expression(expression) {
            Ok(c) => c,
            Err(e) => {
                return Err(e);
            },
        };
        match Rule::parse(canonical.as_str()) {
            Ok(rule) => Ok(ScheduleTimer { rule, last_trigger: None }),
            Err(e) => Err(e),
        }
    }

    /// One step of the due-detection machine at instant `now` (milliseconds
    /// since the Unix epoch, UTC): reports whether at least one occurrence
    /// has come due since the last report, exactly as [`poll_spec`] says.
    pub fn poll(&mut self, now: i64) -> (due: bool)
        requires
            0 <= now <= MAX_TIME_MS,
        ensures
            final(self).expr() == old(self).expr(),
            (final(self).last_fired(), due) == poll_spec(
                old(self).expr(),
                old(self).last_fired(),
                now as int,
            ),
    {
        proof {
            use_type_invariant(&*self);
        }
        match self.last_trigger {
            None => {
                match self.rule.first_at_or_after(now) {
                    None => false,
                    Some(c) => {
                        if c <= now {
                            self.last_trigger = Some(c);
                            true
                        } else {
                            self.last_trigger = Some(c - 1);
                            false
                        }
                    },
                }
            },
            Some(l) => {
                match self.rule.first_after(l) {
                    None => false,
                    Some(c0) => {
                        if c0 > now {
                            false
                        } else {
                            let ghost e: Seq<char> = self.rule@;
                            let ghost l0: int = l as int;
                            let mut cur: i64 = c0;
                            proof {
                                assert(latest_elapsed(e, l0, now as int) == latest_of(
                                    c0 as int,
                                    latest_elapsed(e, c0 as int, now as int),
                                ));
                            }
                            loop
                                invariant
                                    self.rule@ == e,
                                    rule_wf(e),
                                    cron_accepts(e),
                                    self.last_trigger == Some(l),
                                    0 <= now <= MAX_TIME_MS,
                                    l0 < cur as int <= now as int,
                                    0 <= cur <= LAST_OCCURRENCE_MS,
                                    latest_elapsed(e, l0, now as int) == latest_of(
                                        cur as int,
                                        latest_elapsed(e, cur as int, now as int),
                                    ),
                                ensures
                                    self.rule@ == e,
                                    rule_wf(e),
                                    cron_accepts(e),
                                    self.last_trigger == Some(l),
                                    0 <= cur <= LAST_OCCURRENCE_MS,
                                    latest_elapsed(e, l0, now as int) == Some(cur as int),
                                decreases now - cur,
                            {
                                match self.rule.first_after(cur) {
                                    Some(c2) => {
                                        if c2 <= now {
                                            proof {
                                                assert(latest_elapsed(e, cur as int, now as int)
                                                    == latest_of(
                                                    c2 as int,
                                                    latest_elapsed(e, c2 as int, now as int),
                                                ));
                                            }
                                            cur = c2;
                                        } else {
                                            proof {
                                                assert(latest_elapsed(e, cur as int, now as int)
                                                    is None);
                                            }
                                            break;
                                        }
                                    },
                                    None => {
                                        proof {
                                            assert(latest_elapsed(e, cur as int, now as int)
                                                is None);
                                        }
                                        break;
                                    },
                                }
                            }
                            self.last_trigger = Some(cur);
                            true
                        }
                    },
                }
            },
        }
    }
}

/// The stateless convenience form of the tracker: one hidden
/// [`ScheduleTimer`] behind a single-call interface, for hosts that prefer
/// a predicate over an object. Behaviorally identical to constructing one
/// timer and polling it.
pub struct SchedulePredicate {
    timer: ScheduleTimer,
}

impl SchedulePredicate {
    /// The canonical cron expression driving the hidden timer.
    pub closed spec fn expr(&self) -> Seq<char> {
        self.timer.expr()
    }

    /// The hidden timer's last-fired state.
    pub closed spec fn last_fired(&self) -> Option<int> {
        self.timer.last_fired()
    }

    /// One due check at instant `now`: exactly one [`ScheduleTimer::poll`]
    /// step on the hidden timer.
    pub fn check(&mut self, now: i64) -> (due: bool)
        requires
            0 <= now <= MAX_TIME_MS,
        ensures
            final(self).expr() == old(self).expr(),
            (final(self).last_fired(), due) == poll_spec(
                old(self).expr(),
                old(self).last_fired(),
                now as int,
            ),
    {
        self.timer.poll(now)
    }
}

/// Builds the due predicate for a schedule expression: an unarmed hidden
/// timer, with exactly the failure conditions of [`ScheduleTimer::new`].
pub fn schedule_passed(expression: &str) -> (r: Result<SchedulePredicate, ExpressionError>)
    ensures
        match r {
            Ok(p) => {
                &&& normalized_of(expression@) == Some(p.expr())
                &&& cron_accepts(p.expr())
                &&& rule_wf(p.expr())
                &&& p.last_fired() is None
            },
            Err(e) => match e {
                ExpressionError::Untranslatable => normalized_of(expression@) is None,
                ExpressionError::InvalidSyntax => {
                    normalized_of(expression@) matches Some(c) && !cron_accepts(c)
                },
            },
        },
{
    match ScheduleTimer::new(expression) {
        Ok(timer) => Ok(SchedulePredicate { timer }),
        Err(e) => Err(e),
    }
}

} // verus!
