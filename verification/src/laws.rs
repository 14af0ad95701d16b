//! The guarantees of the due-detection state machine, stated and proved
//! over [`poll_spec`]: determinism of a timer's observable behavior,
//! monotonic advance of the last-fired state, at-most-one report per
//! occurrence over a timer's lifetime, coalescing of missed occurrences,
//! immediate-due bootstrap, and silence while no occurrence has elapsed.
//!
//! All of them hold for every expression whose occurrence oracle satisfies
//! [`rule_wf`], which [`crate::Rule::parse`] establishes for every rule it
//! returns.

use vstd::prelude::*;

use crate::rule::{first_occurrence_after, first_occurrence_at_or_after, rule_wf};
use crate::tracker::{latest_elapsed, latest_of, poll_spec};

verus! {

/// An occurrence reported by the armed branch lies in `(last, now]`: it
/// really elapsed since the stored state and is not in the future.
pub proof fn lemma_latest_elapsed_in_range(e: Seq<char>, last: int, now: int)
    requires
        rule_wf(e),
    ensures
        latest_elapsed(e, last, now) matches Some(c) ==> last < c <= now,
    decreases now - last,
{
    match first_occurrence_after(e, last) {
        None => {},
        Some(c) => {
            if last < c && c <= now {
                lemma_latest_elapsed_in_range(e, c, now);
            }
        },
    }
}

/// The armed branch coalesces: after it reports occurrence `c`, no further
/// occurrence lies at or before `now` — the next one, if any, is strictly
/// in the future.
pub proof fn lemma_latest_elapsed_consumed(e: Seq<char>, last: int, now: int)
    requires
        rule_wf(e),
    ensures
        latest_elapsed(e, last, now) matches Some(c) ==> (first_occurrence_after(e, c)
            matches Some(d) ==> d > now),
    decreases now - last,
{
    match first_occurrence_after(e, last) {
        None => {},
        Some(c) => {
            if last < c && c <= now {
                lemma_latest_elapsed_consumed(e, c, now);
            }
        },
    }
}

/// The occurrence queries are monotone: asked from a later instant, the
/// next occurrence (strictly after, and likewise at or after) is never
/// earlier, wherever both are defined.
pub proof fn lemma_first_after_monotone(e: Seq<char>, t1: int, t2: int)
    requires
        rule_wf(e),
        t1 <= t2,
    ensures
        match (first_occurrence_after(e, t1), first_occurrence_after(e, t2)) {
            (Some(c1), Some(c2)) => c1 <= c2,
            _ => true,
        },
        match (first_occurrence_at_or_after(e, t1), first_occurrence_at_or_after(e, t2)) {
            (Some(c1), Some(c2)) => c1 <= c2,
            _ => true,
        },
{
    match first_occurrence_after(e, t1) {
        Some(c1) => {
            if t2 < c1 {
                assert(first_occurrence_after(e, t2) == first_occurrence_after(e, t1));
            }
        },
        None => {},
    }
    match first_occurrence_after(e, t1 - 1) {
        Some(c1) => {
            if t2 - 1 < c1 {
                assert(first_occurrence_after(e, t2 - 1) == first_occurrence_after(e, t1 - 1));
            }
        },
        None => {},
    }
}

/// A poll never rewinds the last-fired state; a poll that fires advances it
/// strictly, to an occurrence that has already elapsed; and an unarmed poll
/// fires exactly at an occurrence instant itself.
pub proof fn lemma_poll_advances(e: Seq<char>, s: Option<int>, now: int)
    requires
        rule_wf(e),
    ensures
        ({
            let (s2, fired) = poll_spec(e, s, now);
            match s {
                Some(l) => s2 matches Some(l2) && l2 >= l && (fired ==> l2 > l),
                None => fired ==> s2 == Some(now),
            }
        }),
        ({
            let (s2, fired) = poll_spec(e, s, now);
            fired ==> (s2 matches Some(l2) && l2 <= now)
        }),
{
    match s {
        None => {},
        Some(l) => {
            lemma_latest_elapsed_in_range(e, l, now);
        },
    }
}

/// The last-fired state of a timer after its first `k` polls, starting
/// unarmed, where poll number `k` is given instant `nows[k]`.
pub open spec fn run_state(e: Seq<char>, nows: Seq<int>, k: int) -> Option<int>
    decreases k,
{
    if k <= 0 {
        None
    } else {
        poll_spec(e, run_state(e, nows, k - 1), nows[k - 1]).0
    }
}

/// Whether poll number `k` of that run reports due.
pub open spec fn run_fired(e: Seq<char>, nows: Seq<int>, k: int) -> bool {
    poll_spec(e, run_state(e, nows, k), nows[k]).1
}

/// The last-fired state after a later poll is never behind the state after
/// an earlier one, whatever instants the polls were given.
pub proof fn lemma_run_monotone(e: Seq<char>, nows: Seq<int>, i: int, j: int)
    requires
        rule_wf(e),
        0 <= i <= j,
    ensures
        run_state(e, nows, i) matches Some(x) ==> (run_state(e, nows, j)
            matches Some(y) && y >= x),
    decreases j - i,
{
    if i < j {
        lemma_run_monotone(e, nows, i, j - 1);
        lemma_poll_advances(e, run_state(e, nows, j - 1), nows[j - 1]);
    }
}

/// Idempotent construction: a timer's observable behavior is a function of
/// its canonical expression and the instants it is polled at alone, so two
/// timers built from the same expression and given the same instants report
/// due identically, poll for poll.
pub proof fn lemma_identical_behavior(e1: Seq<char>, e2: Seq<char>, nows: Seq<int>, k: int)
    requires
        e1 == e2,
    ensures
        run_state(e1, nows, k) == run_state(e2, nows, k),
        run_fired(e1, nows, k) == run_fired(e2, nows, k),
{
}

/// At most one report per occurrence: over a timer's lifetime, two distinct
/// polls that both report due report strictly increasing occurrences — no
/// occurrence is ever reported twice.
pub proof fn lemma_reported_at_most_once(e: Seq<char>, nows: Seq<int>, i: int, j: int)
    requires
        rule_wf(e),
        0 <= i < j,
        run_fired(e, nows, i),
        run_fired(e, nows, j),
    ensures
        run_state(e, nows, i + 1) matches Some(x) ==> (run_state(e, nows, j + 1)
            matches Some(y) && y > x),
        run_state(e, nows, i + 1) is Some,
{
    lemma_poll_advances(e, run_state(e, nows, i), nows[i]);
    lemma_run_monotone(e, nows, i + 1, j);
    lemma_poll_advances(e, run_state(e, nows, j), nows[j]);
}

/// Coalescing: a poll that fires from an armed state reports the single
/// most recent elapsed occurrence `c`, and every poll after it up to the
/// next occurrence is silent and leaves the state at `c` — the skipped
/// occurrences are collapsed into that one report, never queued.
pub proof fn lemma_no_refire(e: Seq<char>, l: int, c: int, now: int, now2: int)
    requires
        rule_wf(e),
        latest_elapsed(e, l, now) == Some(c),
        now <= now2,
        first_occurrence_after(e, c) matches Some(d) ==> now2 < d,
    ensures
        poll_spec(e, Some(l), now) == (Some(c), true),
        poll_spec(e, Some(c), now2) == (Some(c), false),
{
    lemma_latest_elapsed_in_range(e, l, now);
}

/// Immediate-due bootstrap: an unarmed timer polled exactly at an
/// occurrence instant fires on that very first poll.
pub proof fn lemma_bootstrap_fires(e: Seq<char>, now: int)
    requires
        rule_wf(e),
        first_occurrence_at_or_after(e, now) == Some(now),
    ensures
        poll_spec(e, None, now) == (Some(now), true),
{
}

/// No premature fire: a poll is silent while no occurrence has elapsed —
/// unarmed, when the first occurrence at or after `now` is still ahead;
/// armed, when the first occurrence after the stored state is still ahead.
pub proof fn lemma_silent_before_next(e: Seq<char>, s: Option<int>, now: int)
    requires
        rule_wf(e),
        match s {
            None => first_occurrence_at_or_after(e, now) matches Some(c) ==> c > now,
            Some(l) => first_occurrence_after(e, l) matches Some(c) ==> c > now,
        },
    ensures
        !poll_spec(e, s, now).1,
{
}

/// Arming one millisecond early loses nothing: an unarmed poll that sees
/// its first occurrence `c` strictly ahead arms at `c - 1` without firing,
/// and the next poll at or after `c` does fire.
pub proof fn lemma_armed_early_fires(e: Seq<char>, now: int, now2: int, c: int)
    requires
        rule_wf(e),
        first_occurrence_at_or_after(e, now) == Some(c),
        now < c,
        c <= now2,
    ensures
        poll_spec(e, None, now) == (Some(c - 1), false),
        poll_spec(e, Some(c - 1), now2).1,
{
    assert(first_occurrence_after(e, c - 1) == Some(c));
    assert(latest_elapsed(e, c - 1, now2) == latest_of(c, latest_elapsed(e, c, now2)));
}

} // verus!
