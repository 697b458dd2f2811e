//! The accrual ledger: a high-precision index of cumulative value owed per
//! unit of stake. Sharing an amount with the stake pool raises the index by
//! `amount / total_staked`, computed at 64 fractional bits so that repeated
//! tiny shares are never truncated to nothing; a staker's owed amount is its
//! stake times the index growth since it last synchronized, floored to the
//! base unit.

use crate::arith::{sat_add_u128, sat_add_u128_spec};
use vstd::arithmetic::div_mod::{lemma_div_is_ordered, lemma_div_multiples_vanish};
use vstd::prelude::*;

verus! {

/// One whole unit of the accrual index: the index carries 64 fractional bits.
pub const INDEX_SCALE: u128 = 0x1_0000_0000_0000_0000;

/// The exact index growth from sharing `amount` across `total_staked` units
/// of stake: `amount / total_staked` at 64 fractional bits, floored.
pub open spec fn share_delta_spec(total_staked: u64, amount: u64) -> u128
    recommends
        total_staked > 0,
{
    ((amount * INDEX_SCALE) / (total_staked as int)) as u128
}

/// The amount owed to `stake_amount` units of stake for the index growth from
/// `last_synced_index` to `current_index`, floored to the base unit and
/// clamped to the `u64` range. The floor always favors the ledger.
pub open spec fn owed_spec(stake_amount: u64, current_index: u128, last_synced_index: u128) -> u64
    recommends
        last_synced_index <= current_index,
{
    let q = (stake_amount * (current_index - last_synced_index)) / (INDEX_SCALE as int);
    if q > u64::MAX {
        u64::MAX
    } else {
        q as u64
    }
}

/// The index growth from sharing `amount` across `total_staked` staked units.
pub fn share(total_staked: u64, amount: u64) -> (delta: u128)
    requires
        total_staked > 0,
    ensures
        delta == share_delta_spec(total_staked, amount),
{
    proof {
        assert(amount * INDEX_SCALE <= u64::MAX * INDEX_SCALE) by (nonlinear_arith)
            requires
                amount <= u64::MAX,
        ;
    }
    ((amount as u128) * INDEX_SCALE) / (total_staked as u128)
}

/// The amount owed for the index growth since the last synchronization.
pub fn owed(stake_amount: u64, current_index: u128, last_synced_index: u128) -> (r: u64)
    requires
        last_synced_index <= current_index,
    ensures
        r == owed_spec(stake_amount, current_index, last_synced_index),
{
    let delta = current_index - last_synced_index;
    match (stake_amount as u128).checked_mul(delta) {
        Some(product) => {
            let q = product / INDEX_SCALE;
            if q > u64::MAX as u128 {
                u64::MAX
            } else {
                q as u64
            }
        },
        None => {
            proof {
                let product = stake_amount * (current_index - last_synced_index);
                assert(product > u128::MAX);
                lemma_div_is_ordered(
                    u128::MAX as int + 1,
                    product,
                    INDEX_SCALE as int,
                );
                lemma_div_multiples_vanish(INDEX_SCALE as int, INDEX_SCALE as int);
                assert(u128::MAX as int + 1 == INDEX_SCALE * INDEX_SCALE);
                assert(product / (INDEX_SCALE as int) > u64::MAX);
            }
            u64::MAX
        },
    }
}

/// The treasury's distribution state: the stake pool size and the accrual
/// index, which never decreases.
#[derive(Debug, Clone, Copy, PartialEq, Eq)]
pub struct Treasury {
    pub total_staked: u64,
    pub accrual_index: u128,
}

impl Treasury {
    /// Raises the accrual index by the share delta for `amount`. Only
    /// meaningful while stake exists; the index never decreases.
    pub fn credit_share(&mut self, amount: u64)
        requires
            old(self).total_staked > 0,
        ensures
            final(self).total_staked == old(self).total_staked,
            final(self).accrual_index == sat_add_u128_spec(
                old(self).accrual_index,
                share_delta_spec(old(self).total_staked, amount),
            ),
            old(self).accrual_index <= final(self).accrual_index,
    {
        let delta = share(self.total_staked, amount);
        self.accrual_index = sat_add_u128(self.accrual_index, delta);
    }
}

/// A stakeholder's record: its owner, its staked amount, and the accrual
/// index it last synchronized with.
#[derive(Debug, Clone, Copy, PartialEq, Eq)]
pub struct StakeAccount {
    pub owner: crate::addr::Address,
    pub staked: u64,
    pub last_synced_index: u128,
}

impl StakeAccount {
    /// Settles the amount owed since the last synchronization and copies the
    /// treasury's current index into this record.
    pub fn reconcile(&mut self, treasury: &Treasury) -> (owed_amount: u64)
        requires
            old(self).last_synced_index <= treasury.accrual_index,
        ensures
            owed_amount == owed_spec(
                old(self).staked,
                treasury.accrual_index,
                old(self).last_synced_index,
            ),
            final(self).last_synced_index == treasury.accrual_index,
            final(self).staked == old(self).staked,
            final(self).owner == old(self).owner,
    {
        let owed_amount = owed(self.staked, treasury.accrual_index, self.last_synced_index);
        self.last_synced_index = treasury.accrual_index;
        owed_amount
    }
}

/// The accrual index after a sequence of share events, each a pair of the
/// stake pool size at that moment and the shared amount. Events with an empty
/// stake pool leave the index unchanged.
pub open spec fn index_after_shares(index: u128, events: Seq<(u64, u64)>) -> u128
    decreases events.len(),
{
    if events.len() == 0 {
        index
    } else {
        let ev = events.first();
        let next = if ev.0 > 0 {
            sat_add_u128_spec(index, share_delta_spec(ev.0, ev.1))
        } else {
            index
        };
        index_after_shares(next, events.drop_first())
    }
}

/// The accrual index never decreases across any sequence of share events.
pub proof fn lemma_accrual_index_monotonic(index: u128, events: Seq<(u64, u64)>)
    ensures
        index <= index_after_shares(index, events),
    decreases events.len(),
{
    if events.len() > 0 {
        let ev = events.first();
        let next = if ev.0 > 0 {
            sat_add_u128_spec(index, share_delta_spec(ev.0, ev.1))
        } else {
            index
        };
        lemma_accrual_index_monotonic(next, events.drop_first());
    }
}

} // verus!
