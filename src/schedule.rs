//! The two timers that drive sweeps: frequent variance checks, which catch up on missed
//! ticks, and slow forced refreshes, which skip them.

use vstd::prelude::*;

use crate::policy::{MissedTickBehavior, Trigger};

verus! {

/// `x`, capped at `u64::MAX`.
pub open spec fn saturate(x: int) -> u64 {
    if x > u64::MAX {
        u64::MAX
    } else {
        x as u64
    }
}

/// When a timer due at `deadline`, served at `now`, fires next.
pub open spec fn spec_following_deadline(
    deadline: u64,
    period: u64,
    behavior: MissedTickBehavior,
    now: u64,
) -> u64 {
    match behavior {
        MissedTickBehavior::Delay => saturate(now + period),
        MissedTickBehavior::Skip => saturate(now + period - (now - deadline) % (period as int)),
    }
}

/// `a + b`, capped at `u64::MAX`.
fn saturating_add(a: u64, b: u64) -> (r: u64)
    ensures
        r == saturate(a + b),
{
    if a > u64::MAX - b {
        u64::MAX
    } else {
        a + b
    }
}

/// One periodic timer, with times in seconds.
#[derive(Clone, Copy, Debug)]
pub struct Timer {
    period: u64,
    deadline: u64,
    behavior: MissedTickBehavior,
}

impl Timer {
    /// Seconds between ticks.
    pub closed spec fn period_spec(&self) -> u64 {
        self.period
    }

    /// When the timer fires next.
    pub closed spec fn deadline_spec(&self) -> u64 {
        self.deadline
    }

    /// What the timer does with ticks it misses.
    pub closed spec fn behavior_spec(&self) -> MissedTickBehavior {
        self.behavior
    }

    /// A timer that first fires at `first` and then every `period` seconds.
    pub fn new(first: u64, period: u64, behavior: MissedTickBehavior) -> (r: Timer)
        requires
            period > 0,
        ensures
            r.deadline_spec() == first,
            r.period_spec() == period,
            r.behavior_spec() == behavior,
    {
        Timer { period, deadline: first, behavior }
    }

    /// When the timer fires next.
    pub fn deadline(&self) -> (r: u64)
        ensures
            r == self.deadline_spec(),
    {
        self.deadline
    }

    /// Fires the timer at `now`, at or after its deadline, and schedules the next tick.
    fn fire(&mut self, now: u64)
        requires
            old(self).period_spec() > 0,
            old(self).deadline_spec() <= now,
        ensures
            final(self).deadline_spec() == spec_following_deadline(
                old(self).deadline_spec(),
                old(self).period_spec(),
                old(self).behavior_spec(),
                now,
            ),
            final(self).period_spec() == old(self).period_spec(),
            final(self).behavior_spec() == old(self).behavior_spec(),
    {
        self.deadline = match self.behavior {
            MissedTickBehavior::Delay => saturating_add(now, self.period),
            MissedTickBehavior::Skip => {
                let late = (now - self.deadline) % self.period;
                saturating_add(now, self.period - late)
            },
        };
    }
}

/// The pair of timers that decides which sweep runs when.
#[derive(Clone, Copy, Debug)]
pub struct Scheduler {
    variance_check: Timer,
    forced_refresh: Timer,
}

impl Scheduler {
    /// The variance-check timer.
    pub closed spec fn variance_timer(&self) -> Timer {
        self.variance_check
    }

    /// The forced-refresh timer.
    pub closed spec fn refresh_timer(&self) -> Timer {
        self.forced_refresh
    }

    /// Whether both periods are positive.
    pub open spec fn wf(&self) -> bool {
        &&& self.variance_timer().period_spec() > 0
        &&& self.refresh_timer().period_spec() > 0
    }

    /// Timers started at `start`: the first forced refresh is due at once, the first
    /// variance check one period later. Variance checks catch up on missed ticks; forced
    /// refreshes skip them.
    pub fn new(start: u64, check_variance_period: u64, submission_period: u64) -> (r: Scheduler)
        requires
            check_variance_period > 0,
            submission_period > 0,
        ensures
            r.wf(),
            r.variance_timer().deadline_spec() == saturate(start + check_variance_period),
            r.variance_timer().period_spec() == check_variance_period,
            r.variance_timer().behavior_spec() == MissedTickBehavior::Delay,
            r.refresh_timer().deadline_spec() == start,
            r.refresh_timer().period_spec() == submission_period,
            r.refresh_timer().behavior_spec() == MissedTickBehavior::Skip,
    {
        let variance = Trigger::VarianceCheck;
        let refresh = Trigger::ForcedRefresh;
        Scheduler {
            variance_check: Timer::new(
                saturating_add(start, check_variance_period),
                check_variance_period,
                variance.missed_tick_behavior(),
            ),
            forced_refresh: Timer::new(start, submission_period, refresh.missed_tick_behavior()),
        }
    }

    /// When the next sweep is due.
    pub fn next_deadline(&self) -> (r: u64)
        ensures
            r == if self.variance_timer().deadline_spec() < self.refresh_timer().deadline_spec() {
                self.variance_timer().deadline_spec()
            } else {
                self.refresh_timer().deadline_spec()
            },
    {
        let v = self.variance_check.deadline();
        let f = self.forced_refresh.deadline();
        if v < f {
            v
        } else {
            f
        }
    }

    /// The sweep to run at `now`, if one is due. Of two due timers the one with the earlier
    /// deadline runs first, a forced refresh on a tie; only the timer that fires moves on.
    pub fn poll(&mut self, now: u64) -> (r: Option<Trigger>)
        requires
            old(self).wf(),
        ensures
            final(self).wf(),
            ({
                let v = old(self).variance_timer();
                let f = old(self).refresh_timer();
                let v_due = v.deadline_spec() <= now;
                let f_due = f.deadline_spec() <= now;
                if !v_due && !f_due {
                    r is None && *final(self) == *old(self)
                } else if f_due && (!v_due || f.deadline_spec() <= v.deadline_spec()) {
                    &&& r == Some(Trigger::ForcedRefresh)
                    &&& final(self).variance_timer() == v
                    &&& final(self).refresh_timer().deadline_spec() == spec_following_deadline(
                        f.deadline_spec(),
                        f.period_spec(),
                        f.behavior_spec(),
                        now,
                    )
                    &&& final(self).refresh_timer().period_spec() == f.period_spec()
                    &&& final(self).refresh_timer().behavior_spec() == f.behavior_spec()
                } else {
                    &&& r == Some(Trigger::VarianceCheck)
                    &&& final(self).refresh_timer() == f
                    &&& final(self).variance_timer().deadline_spec() == spec_following_deadline(
                        v.deadline_spec(),
                        v.period_spec(),
                        v.behavior_spec(),
                        now,
                    )
                    &&& final(self).variance_timer().period_spec() == v.period_spec()
                    &&& final(self).variance_timer().behavior_spec() == v.behavior_spec()
                }
            }),
    {
        let v = self.variance_check.deadline();
        let f = self.forced_refresh.deadline();
        let v_due = v <= now;
        let f_due = f <= now;
        if !v_due && !f_due {
            None
        } else if f_due && (!v_due || f <= v) {
            self.forced_refresh.fire(now);
            Some(Trigger::ForcedRefresh)
        } else {
            self.variance_check.fire(now);
            Some(Trigger::VarianceCheck)
        }
    }
}

/// A timer that fires moves its deadline past the moment it fired, unless the deadline
/// is already pinned at the largest representable time: a late tick fires once, not once
/// per missed period.
pub proof fn lemma_fired_timer_moves_past_now(
    deadline: u64,
    period: u64,
    behavior: MissedTickBehavior,
    now: u64,
)
    requires
        period > 0,
        deadline <= now,
    ensures
        spec_following_deadline(deadline, period, behavior, now) > now || spec_following_deadline(
            deadline,
            period,
            behavior,
            now,
        ) == u64::MAX,
{
}

/// A skipping timer keeps its cadence: its next deadline stays a whole number of periods
/// after the one it missed.
pub proof fn lemma_skip_keeps_cadence(deadline: u64, period: u64, now: u64)
    requires
        period > 0,
        deadline <= now,
        now + period < u64::MAX,
    ensures
        (spec_following_deadline(deadline, period, MissedTickBehavior::Skip, now) - deadline)
            % (period as int) == 0,
{
    let late = (now - deadline) % (period as int);
    let q = (now - deadline) / (period as int);
    assert(now - deadline == q * period + late) by (nonlinear_arith)
        requires
            period > 0,
            late == (now - deadline) % (period as int),
            q == (now - deadline) / (period as int),
    ;
    assert(now + period - late - deadline == (q + 1) * period) by (nonlinear_arith)
        requires
            now - deadline == q * period + late,
    ;
    vstd::arithmetic::div_mod::lemma_mod_multiples_basic(q + 1, period as int);
}

} // verus!
