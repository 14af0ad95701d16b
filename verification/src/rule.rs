//! The recurrence engine: a canonical cron expression parsed into a rule
//! that answers "what is the next occurrence strictly after an instant" and
//! "at or after an instant".
//!
//! Instants are milliseconds since the Unix epoch, evaluated in UTC.
//! Occurrences are always whole seconds; parsing and occurrence search are
//! delegated to the `cron` crate behind a trusted boundary, and the rest of
//! the library reasons about them through the uninterpreted oracle
//! [`first_occurrence_after`].

use vstd::prelude::*;

use crate::expr::ExpressionError;

verus! {

/// The latest instant the library works with (the last millisecond of year
/// 9999), comfortably inside the range `chrono` can represent.
pub const MAX_TIME_MS: i64 = 253_402_300_799_999;

/// The last instant of year 2100, the top of the cron grammar's year range:
/// no occurrence lies after it.
pub const LAST_OCCURRENCE_MS: i64 = 4_133_980_799_000;

/// Verus declaration of the `cron` crate's parsed-schedule type; the library
/// carries values of it opaquely inside [`Rule`].
#[verifier::external_type_specification]
#[verifier::external_body]
pub struct ExSchedule(cron::Schedule);

/// Whether the `cron` crate's parser accepts an expression. Parsing is a
/// pure function of the expression text.
pub uninterp spec fn cron_accepts(e: Seq<char>) -> bool;

/// The earliest occurrence of the expression's schedule strictly after
/// instant `t`, in milliseconds since the Unix epoch under UTC, or `None`
/// where the schedule has no further occurrence. A pure function of the
/// expression text and the instant.
pub uninterp spec fn first_occurrence_after(e: Seq<char>, t: int) -> Option<int>;

/// The earliest occurrence at or after instant `t`: an occurrence is a whole
/// second, hence at least a millisecond above `t - 1`.
pub open spec fn first_occurrence_at_or_after(e: Seq<char>, t: int) -> Option<int> {
    first_occurrence_after(e, t - 1)
}

/// The facts about the occurrence oracle that the state machine's proofs
/// rest on, true of any expression the cron parser accepted:
/// the next occurrence after `t` lies strictly after `t`, and it stays the
/// next occurrence from every instant between `t` and itself.
pub open spec fn rule_wf(e: Seq<char>) -> bool {
    &&& forall|t: int| #[trigger] first_occurrence_after(e, t) matches Some(c) ==> c > t
    &&& forall|t: int, u: int|
        #![trigger first_occurrence_after(e, t), first_occurrence_after(e, u)]
        (first_occurrence_after(e, t) matches Some(c) && t <= u < c)
            ==> first_occurrence_after(e, u) == first_occurrence_after(e, t)
}

/// A parsed, immutable recurrence rule: one cron schedule together with the
/// canonical expression it was parsed from. Its view is that expression.
pub struct Rule {
    schedule: cron::Schedule,
    source: String,
}

impl View for Rule {
    type V = Seq<char>;

    closed spec fn view(&self) -> Seq<char> {
        self.source@
    }
}

impl Rule {
    /// Parses a canonical cron expression into a rule; fails exactly when
    /// the cron grammar rejects the expression.
    pub fn parse(canonical: &str) -> (r: Result<Rule, ExpressionError>)
        ensures
            match r {
                Ok(rule) => rule@ == canonical@ && cron_accepts(canonical@) && rule_wf(rule@),
                Err(e) => !cron_accepts(canonical@) && e == ExpressionError::InvalidSyntax,
            },
    {
        match parse_cron(canonical) {
            Some(rule) => Ok(rule),
            None => Err(ExpressionError::InvalidSyntax),
        }
    }

    /// The canonical cron expression this rule was parsed from.
    pub fn source(&self) -> (r: &str)
        ensures
            r@ == self@,
    {
        self.source.as_str()
    }

    /// The next occurrence strictly after instant `t`, or `None` where the
    /// schedule is exhausted.
    pub fn first_after(&self, t: i64) -> (r: Option<i64>)
        requires
            -1 <= t <= MAX_TIME_MS,
        ensures
            match r {
                Some(c) => first_occurrence_after(self@, t as int) == Some(c as int) && t < c
                    && 0 <= c <= LAST_OCCURRENCE_MS,
                None => first_occurrence_after(self@, t as int) is None,
            },
    {
        self.next_after_ms(t)
    }

    /// The next occurrence at or after instant `t`, or `None` where the
    /// schedule is exhausted.
    pub fn first_at_or_after(&self, t: i64) -> (r: Option<i64>)
        requires
            0 <= t <= MAX_TIME_MS,
        ensures
            match r {
                Some(c) => first_occurrence_at_or_after(self@, t as int) == Some(c as int)
                    && t <= c && 0 <= c <= LAST_OCCURRENCE_MS,
                None => first_occurrence_at_or_after(self@, t as int) is None,
            },
    {
        self.first_after(t - 1)
    }

    /// Relies on `cron::Schedule::after(..).next()`: the earliest occurrence
    /// of the schedule strictly after the given instant, under UTC, where an
    /// occurrence is a whole second within the grammar's year range 1970 to
    /// 2100; and on `chrono`'s exact millisecond timestamp conversions.
    #[verifier::external_body]
    fn next_after_ms(&self, t: i64) -> (r: Option<i64>)
        requires
            -1 <= t <= MAX_TIME_MS,
        ensures
            match r {
                Some(c) => first_occurrence_after(self@, t as int) == Some(c as int) && t < c
                    && 0 <= c <= LAST_OCCURRENCE_MS,
                None => first_occurrence_after(self@, t as int) is None,
            },
    {
        let dt = match chrono::DateTime::from_timestamp_millis(t) {
            Some(d) => d,
            None => return None,
        };
        self.schedule.after(&dt).next().map(|d| d.timestamp_millis())
    }
}

/// Relies on `cron::Schedule::from_str`: a deterministic parser of the 6/7
/// field cron grammar, succeeding exactly on the expressions the grammar
/// accepts; the resulting schedule's occurrences are a fixed set of whole
/// seconds determined by the expression, so the occurrence oracle of a
/// parsed expression satisfies [`rule_wf`].
#[verifier::external_body]
fn parse_cron(source: &str) -> (r: Option<Rule>)
    ensures
        r is Some <==> cron_accepts(source@),
        r matches Some(rule) ==> rule@ == source@ && rule_wf(rule@),
{
    match <cron::Schedule as core::str::FromStr>::from_str(source) {
        Ok(schedule) => Some(
            Rule { schedule, source: source.to_string() },
        ),
        Err(_) => None,
    }
}

} // verus!
