//! Linear vesting schedules with an optional cliff: the released amount grows
//! by a fixed release each full period past the start, never decreases as
//! time advances, and never exceeds the schedule total. A vault account
//! tracks how much of the released amount its beneficiary has claimed.

use crate::arith::{
    lemma_sat_mul_u64_monotonic, sat_add_u64, sat_add_u64_spec, sat_mul_u64, sat_mul_u64_spec,
    sat_sub_u64, sat_sub_u64_spec,
};
use vstd::arithmetic::div_mod::lemma_div_is_ordered;
use vstd::prelude::*;

verus! {

/// Supported vault implementations for reward locking.
#[derive(Debug, Clone, Copy, PartialEq, Eq)]
pub enum VaultImplementation {
    /// Custom vault logic owned by the launcher workflow.
    Custom,
}

/// A linear unlock schedule with an optional cliff and periodic releases.
#[derive(Debug, Clone, Copy, PartialEq, Eq)]
pub struct VaultSchedule {
    pub start_ts: i64,
    pub cliff_ts: Option<i64>,
    pub period_seconds: i64,
    pub release_per_period: u64,
    pub period_count: u64,
}

/// The full amount a schedule ever releases.
pub open spec fn total_amount_spec(s: VaultSchedule) -> u64 {
    sat_mul_u64_spec(s.release_per_period, s.period_count)
}

/// Seconds elapsed since the schedule start, clamped to the `i64` range.
pub open spec fn elapsed_spec(now_ts: i64, start_ts: i64) -> i64
    recommends
        start_ts <= now_ts,
{
    if now_ts - start_ts > i64::MAX {
        i64::MAX
    } else {
        (now_ts - start_ts) as i64
    }
}

/// Full periods elapsed by `now_ts`, capped at the schedule's period count.
pub open spec fn periods_vested_spec(s: VaultSchedule, now_ts: i64) -> u64
    recommends
        s.start_ts <= now_ts,
        s.period_seconds > 0,
{
    let periods = elapsed_spec(now_ts, s.start_ts) as int / s.period_seconds as int;
    if periods >= s.period_count {
        s.period_count
    } else {
        periods as u64
    }
}

/// The cumulative amount a schedule has released by `now_ts`: zero before the
/// start or before a set cliff, the whole total for a degenerate
/// (non-positive) period length, and otherwise the per-period release times
/// the number of full periods elapsed, capped at the period count.
pub open spec fn released_amount_spec(s: VaultSchedule, now_ts: i64) -> u64 {
    if now_ts < s.start_ts {
        0
    } else if (s.cliff_ts matches Some(cliff) && now_ts < cliff) {
        0
    } else if s.period_seconds <= 0 {
        total_amount_spec(s)
    } else {
        sat_mul_u64_spec(s.release_per_period, periods_vested_spec(s, now_ts))
    }
}

/// The part of the released amount not yet claimed.
pub open spec fn claimable_amount_spec(s: VaultSchedule, now_ts: i64, already_claimed: u64) -> u64 {
    sat_sub_u64_spec(released_amount_spec(s, now_ts), already_claimed)
}

impl VaultSchedule {
    /// The full amount this schedule ever releases.
    pub fn total_amount(&self) -> (r: u64)
        ensures
            r == total_amount_spec(*self),
    {
        sat_mul_u64(self.release_per_period, self.period_count)
    }

    /// The cumulative amount released by `now_ts`.
    pub fn released_amount(&self, now_ts: i64) -> (r: u64)
        ensures
            r == released_amount_spec(*self, now_ts),
    {
        if now_ts < self.start_ts {
            return 0;
        }
        if let Some(cliff_ts) = self.cliff_ts {
            if now_ts < cliff_ts {
                return 0;
            }
        }
        if self.period_seconds <= 0 {
            return self.total_amount();
        }
        let elapsed_seconds: i64 = match now_ts.checked_sub(self.start_ts) {
            Some(e) => e,
            None => i64::MAX,
        };
        let periods_elapsed: u64 = (elapsed_seconds as u64) / (self.period_seconds as u64);
        let periods_vested: u64 = if periods_elapsed < self.period_count {
            periods_elapsed
        } else {
            self.period_count
        };
        assert(periods_vested == periods_vested_spec(*self, now_ts));
        sat_mul_u64(self.release_per_period, periods_vested)
    }

    /// The released amount not yet covered by `already_claimed`.
    pub fn claimable_amount(&self, now_ts: i64, already_claimed: u64) -> (r: u64)
        ensures
            r == claimable_amount_spec(*self, now_ts, already_claimed),
    {
        sat_sub_u64(self.released_amount(now_ts), already_claimed)
    }
}

/// No schedule releases more than its total.
pub proof fn lemma_released_bounded(s: VaultSchedule, now_ts: i64)
    ensures
        released_amount_spec(s, now_ts) <= total_amount_spec(s),
{
    if !(now_ts < s.start_ts) && !(s.cliff_ts matches Some(cliff) && now_ts < cliff)
        && s.period_seconds > 0 {
        lemma_sat_mul_u64_monotonic(
            s.release_per_period,
            periods_vested_spec(s, now_ts),
            s.period_count,
        );
    }
}

/// The released amount never decreases as time advances.
pub proof fn lemma_released_monotonic(s: VaultSchedule, t1: i64, t2: i64)
    requires
        t1 <= t2,
    ensures
        released_amount_spec(s, t1) <= released_amount_spec(s, t2),
{
    if released_amount_spec(s, t1) == 0 {
        // Nothing released yet can only grow.
    } else if s.period_seconds <= 0 {
        // Both sides are the schedule total.
    } else {
        let e1 = elapsed_spec(t1, s.start_ts) as int;
        let e2 = elapsed_spec(t2, s.start_ts) as int;
        assert(e1 <= e2);
        lemma_div_is_ordered(e1, e2, s.period_seconds as int);
        lemma_sat_mul_u64_monotonic(
            s.release_per_period,
            periods_vested_spec(s, t1),
            periods_vested_spec(s, t2),
        );
    }
}

/// Tracks rewards locked in a vault with a defined release schedule.
#[derive(Debug, Clone, PartialEq, Eq)]
pub struct VaultAccount {
    pub implementation: VaultImplementation,
    pub beneficiary: String,
    pub schedule: VaultSchedule,
    pub claimed_amount: u64,
}

impl VaultAccount {
    /// A fresh vault with nothing claimed yet.
    pub fn new(beneficiary: String, schedule: VaultSchedule) -> (r: VaultAccount)
        ensures
            r.implementation == VaultImplementation::Custom,
            r.beneficiary == beneficiary,
            r.schedule == schedule,
            r.claimed_amount == 0,
    {
        VaultAccount {
            implementation: VaultImplementation::Custom,
            beneficiary,
            schedule,
            claimed_amount: 0,
        }
    }

    /// The amount claimable at `now_ts` given what was already claimed.
    pub fn claimable_amount(&self, now_ts: i64) -> (r: u64)
        ensures
            r == claimable_amount_spec(self.schedule, now_ts, self.claimed_amount),
    {
        self.schedule.claimable_amount(now_ts, self.claimed_amount)
    }

    /// Claims everything claimable at `now_ts`, advancing the claimed amount
    /// by exactly the returned value. A second claim at the same instant
    /// returns zero.
    pub fn claim(&mut self, now_ts: i64) -> (amount: u64)
        ensures
            amount == claimable_amount_spec(old(self).schedule, now_ts, old(self).claimed_amount),
            final(self).claimed_amount == sat_add_u64_spec(old(self).claimed_amount, amount),
            final(self).claimed_amount == (if old(self).claimed_amount
                <= released_amount_spec(old(self).schedule, now_ts) {
                released_amount_spec(old(self).schedule, now_ts)
            } else {
                old(self).claimed_amount
            }),
            final(self).schedule == old(self).schedule,
            final(self).beneficiary == old(self).beneficiary,
            final(self).implementation == old(self).implementation,
    {
        let amount = self.claimable_amount(now_ts);
        self.claimed_amount = sat_add_u64(self.claimed_amount, amount);
        amount
    }
}

/// Claiming twice at the same instant yields zero the second time: after one
/// claim the claimed amount covers everything released by then.
pub proof fn lemma_claim_idempotent(s: VaultSchedule, claimed: u64, now_ts: i64)
    ensures
        claimable_amount_spec(
            s,
            now_ts,
            sat_add_u64_spec(claimed, claimable_amount_spec(s, now_ts, claimed)),
        ) == 0,
{
}

/// The claimed amount after claiming at each instant in turn, starting from
/// `claimed`.
pub open spec fn claimed_after_claims(s: VaultSchedule, claimed: u64, nows: Seq<i64>) -> u64
    decreases nows.len(),
{
    if nows.len() == 0 {
        claimed
    } else {
        claimed_after_claims(
            s,
            sat_add_u64_spec(claimed, claimable_amount_spec(s, nows.first(), claimed)),
            nows.drop_first(),
        )
    }
}

/// Along any non-decreasing sequence of claim instants, a vault that starts
/// with nothing claimed ends with exactly the amount released by the last
/// instant, and so never more than the schedule total.
pub proof fn lemma_claims_never_exceed_released(s: VaultSchedule, t0: i64, nows: Seq<i64>)
    requires
        forall|i: int| 0 <= i < nows.len() ==> t0 <= #[trigger] nows[i],
        forall|i: int, j: int| 0 <= i <= j < nows.len() ==> nows[i] <= nows[j],
        nows.len() > 0,
    ensures
        claimed_after_claims(s, 0, nows) == released_amount_spec(s, nows.last()),
        claimed_after_claims(s, 0, nows) <= total_amount_spec(s),
    decreases nows.len(),
{
    lemma_claims_preserve_released_bound(s, 0, t0, nows);
    lemma_released_bounded(s, nows.last());
}

/// The inductive step behind the claim-sequence bound: starting at or below
/// the amount released by some earlier instant, claiming along non-decreasing
/// instants ends exactly at the amount released by the last one.
proof fn lemma_claims_preserve_released_bound(
    s: VaultSchedule,
    claimed: u64,
    t0: i64,
    nows: Seq<i64>,
)
    requires
        claimed <= released_amount_spec(s, t0),
        forall|i: int| 0 <= i < nows.len() ==> t0 <= #[trigger] nows[i],
        forall|i: int, j: int| 0 <= i <= j < nows.len() ==> nows[i] <= nows[j],
        nows.len() > 0,
    ensures
        claimed_after_claims(s, claimed, nows) == released_amount_spec(s, nows.last()),
    decreases nows.len(),
{
    let t = nows.first();
    lemma_released_monotonic(s, t0, t);
    let next = sat_add_u64_spec(claimed, claimable_amount_spec(s, t, claimed));
    assert(next == released_amount_spec(s, t));
    assert(claimed_after_claims(s, claimed, nows) == claimed_after_claims(
        s,
        next,
        nows.drop_first(),
    ));
    if nows.len() > 1 {
        let rest = nows.drop_first();
        assert forall|i: int| 0 <= i < rest.len() implies t <= #[trigger] rest[i] by {
            assert(rest[i] == nows[i + 1]);
            assert(nows[0] <= nows[i + 1]);
        }
        assert forall|i: int, j: int| 0 <= i <= j < rest.len() implies #[trigger] rest[i]
            <= #[trigger] rest[j] by {
            assert(rest[i] == nows[i + 1]);
            assert(rest[j] == nows[j + 1]);
            assert(nows[i + 1] <= nows[j + 1]);
        }
        lemma_claims_preserve_released_bound(s, next, t, rest);
        assert(rest.last() == nows.last());
    } else {
        assert(nows.drop_first().len() == 0);
        assert(claimed_after_claims(s, next, nows.drop_first()) == next);
        assert(nows.last() == t);
    }
}

/// Along any non-decreasing sequence of claim instants, the claimed amount
/// after a claim never exceeds the amount released by that instant.
pub proof fn lemma_claimed_bounded_by_released(s: VaultSchedule, claimed: u64, t1: i64, t2: i64)
    requires
        claimed <= released_amount_spec(s, t1),
        t1 <= t2,
    ensures
        sat_add_u64_spec(claimed, claimable_amount_spec(s, t2, claimed)) == released_amount_spec(
            s,
            t2,
        ),
        sat_add_u64_spec(claimed, claimable_amount_spec(s, t2, claimed)) <= total_amount_spec(s),
{
    lemma_released_monotonic(s, t1, t2);
    lemma_released_bounded(s, t2);
}

} // verus!
