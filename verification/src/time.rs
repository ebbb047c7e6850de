//! Durations and instants as numbers, and the rule by which the timeouts
//! of a call combine.

use crate::config::Timeouts;
use crate::error::{Error, Phase};
use std::time::Duration;
use vstd::prelude::*;

verus! {

/// The length of a duration in nanoseconds.
pub uninterp spec fn duration_nanos(d: Duration) -> nat;

/// `Duration::as_nanos`: the whole length in nanoseconds.
pub assume_specification[ Duration::as_nanos ](d: &Duration) -> (n: u128)
    ensures
        n == duration_nanos(*d),
;

/// `Duration::from_secs`: a duration of so many whole seconds.
pub assume_specification[ Duration::from_secs ](secs: u64) -> (d: Duration)
    ensures
        duration_nanos(d) == secs * 1_000_000_000,
;

/// `Duration::from_nanos`: a duration of so many nanoseconds.
pub assume_specification[ Duration::from_nanos ](nanos: u64) -> (d: Duration)
    ensures
        duration_nanos(d) == nanos,
;

/// `Duration::saturating_sub`: the difference, and zero where `rhs` is the
/// longer of the two.
pub assume_specification[ Duration::saturating_sub ](d: Duration, rhs: Duration) -> (r: Duration)
    ensures
        duration_nanos(r) == left_of(duration_nanos(d), duration_nanos(rhs)),
;

/// The length of a duration that may be unset.
pub open spec fn nanos_of(d: Option<Duration>) -> Option<nat> {
    match d {
        Some(v) => Some(duration_nanos(v)),
        None => None,
    }
}

/// A reading of the monotonic clock: nanoseconds since the clock's origin.
#[derive(Debug, Clone, Copy, PartialEq, Eq, Structural)]
pub struct Instant {
    pub nanos: u64,
}

impl Instant {
    /// The time from `earlier` to `self` in nanoseconds; 0 where `earlier`
    /// is the later of the two.
    pub open spec fn since(self, earlier: Instant) -> nat {
        if earlier.nanos <= self.nanos {
            (self.nanos - earlier.nanos) as nat
        } else {
            0
        }
    }

    /// The time from `earlier` to `self` in nanoseconds.
    pub fn nanos_since(self, earlier: Instant) -> (r: u64)
        ensures
            r == self.since(earlier),
    {
        if earlier.nanos <= self.nanos {
            self.nanos - earlier.nanos
        } else {
            0
        }
    }

    /// Whether more than `max_age` has passed from `earlier` to `self`.
    pub fn is_older_than(self, earlier: Instant, max_age: Duration) -> (r: bool)
        ensures
            r == (self.since(earlier) > duration_nanos(max_age)),
    {
        let age: u64 = self.nanos_since(earlier);
        age as u128 > max_age.as_nanos()
    }
}

/// The smaller of two timeouts, where one that is unset does not count.
pub open spec fn sooner(a: Option<nat>, b: Option<nat>) -> Option<nat> {
    match (a, b) {
        (Some(x), Some(y)) => Some(if x <= y { x } else { y }),
        (Some(x), None) => Some(x),
        (None, Some(y)) => Some(y),
        (None, None) => None,
    }
}

/// A timeout and the phase whose timeout it is.
#[derive(Debug, Clone, Copy)]
pub struct NextTimeout {
    /// How long to wait; `None` to wait without end.
    pub after: Option<Duration>,
    /// The phase that set it.
    pub reason: Phase,
}

/// The timeout of a blocking step: the smaller of what is left of the
/// global budget and of the phase's own timeout. Where the two are equal the
/// global budget is named as the reason.
pub fn effective_timeout(
    global_remaining: Option<Duration>,
    phase_timeout: Option<Duration>,
    phase: Phase,
) -> (r: NextTimeout)
    ensures
        nanos_of(r.after) == sooner(nanos_of(global_remaining), nanos_of(phase_timeout)),
        r.reason == if global_remaining is Some && (phase_timeout is None || duration_nanos(
            global_remaining->0,
        ) <= duration_nanos(phase_timeout->0)) {
            Phase::Global
        } else {
            phase
        },
{
    match global_remaining {
        Some(g) => match phase_timeout {
            Some(p) => {
                if g.as_nanos() <= p.as_nanos() {
                    NextTimeout { after: Some(g), reason: Phase::Global }
                } else {
                    NextTimeout { after: Some(p), reason: phase }
                }
            },
            None => NextTimeout { after: Some(g), reason: Phase::Global },
        },
        None => NextTimeout { after: phase_timeout, reason: phase },
    }
}

/// What is left of a budget once `elapsed` nanoseconds of it are used:
/// nothing where all of it is used.
pub open spec fn left_of(budget: nat, elapsed: nat) -> nat {
    if elapsed <= budget {
        (budget - elapsed) as nat
    } else {
        0
    }
}

/// What is left of `budget` once the time from `since` to `now` is used.
pub fn remaining(budget: Duration, since: Instant, now: Instant) -> (r: Duration)
    ensures
        duration_nanos(r) == left_of(duration_nanos(budget), now.since(since)),
{
    budget.saturating_sub(Duration::from_nanos(now.nanos_since(since)))
}

/// What is left of a budget that may be unset.
pub open spec fn left_of_budget(budget: Option<Duration>, elapsed: nat) -> Option<nat> {
    match budget {
        Some(b) => Some(left_of(duration_nanos(b), elapsed)),
        None => None,
    }
}

/// When a call, its current hop and the current phase of the hop began.
#[derive(Debug, Clone, Copy)]
pub struct Started {
    pub call: Instant,
    pub hop: Instant,
    pub phase: Instant,
}

/// How long the next blocking step of `phase` may take at `now`: the least
/// of what is left of the global budget, of the budget of the hop and of
/// the timeout of the phase, each counted from when its time began.
pub open spec fn time_left(timeouts: Timeouts, phase: Phase, started: Started, now: Instant) -> Option<
    nat,
> {
    sooner(
        sooner(
            left_of_budget(timeouts.global, now.since(started.call)),
            left_of_budget(timeouts.per_call, now.since(started.hop)),
        ),
        left_of_budget(timeouts.for_phase(phase), now.since(started.phase)),
    )
}

/// The budget that runs out first: the global one, else that of the hop,
/// else that of the phase.
pub open spec fn first_to_expire(
    timeouts: Timeouts,
    phase: Phase,
    started: Started,
    now: Instant,
) -> Phase {
    let g = left_of_budget(timeouts.global, now.since(started.call));
    let c = left_of_budget(timeouts.per_call, now.since(started.hop));
    let p = left_of_budget(timeouts.for_phase(phase), now.since(started.phase));
    let least = time_left(timeouts, phase, started, now);
    if g is Some && g == least {
        Phase::Global
    } else if c is Some && c == least {
        Phase::PerCall
    } else {
        phase
    }
}

/// The timeout of the next blocking step of `phase` at `now`. Fails with
/// [`Error::Timeout`], naming the budget that ran out, where no time is left.
pub fn next_timeout(timeouts: &Timeouts, phase: Phase, started: Started, now: Instant) -> (r: Result<
    NextTimeout,
    Error,
>)
    ensures
        time_left(*timeouts, phase, started, now) == Some(0nat) ==> (r matches Err(
            Error::Timeout(reason),
        ) && reason == first_to_expire(*timeouts, phase, started, now)),
        time_left(*timeouts, phase, started, now) != Some(0nat) ==> (r matches Ok(t) && {
            &&& nanos_of(t.after) == time_left(*timeouts, phase, started, now)
            &&& t.reason == first_to_expire(*timeouts, phase, started, now)
        }),
{
    let global = match timeouts.global {
        Some(b) => Some(remaining(b, started.call, now)),
        None => None,
    };
    let per_call = match timeouts.per_call {
        Some(b) => Some(remaining(b, started.hop, now)),
        None => None,
    };
    let own = match timeouts.of(phase) {
        Some(b) => Some(remaining(b, started.phase, now)),
        None => None,
    };
    let budgets = effective_timeout(global, per_call, Phase::PerCall);
    let least = match budgets.after {
        Some(b) => match own {
            Some(p) => {
                if b.as_nanos() <= p.as_nanos() {
                    budgets
                } else {
                    NextTimeout { after: own, reason: phase }
                }
            },
            None => budgets,
        },
        None => NextTimeout { after: own, reason: phase },
    };
    match least.after {
        Some(d) => {
            if d.as_nanos() == 0 {
                return Err(Error::Timeout(least.reason));
            }
        },
        None => {},
    }
    Ok(least)
}

/// The global budget dominates: no step waits longer than what is left of
/// it, whatever the phase's own timeout.
pub proof fn lemma_global_dominates(global_remaining: nat, phase_timeout: Option<nat>)
    ensures
        sooner(Some(global_remaining), phase_timeout) is Some,
        sooner(Some(global_remaining), phase_timeout)->0 <= global_remaining,
        phase_timeout is Some ==> sooner(Some(global_remaining), phase_timeout)->0
            <= phase_timeout->0,
{
}

} // verus!
