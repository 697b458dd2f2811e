//! Requests and status records exchanged with the mining services, and the
//! small pieces of mining logic that act on vaults.

use crate::arith::sat_add_u64_spec;
use crate::schedule::{claimable_amount_spec, VaultAccount, VaultSchedule};
use vstd::prelude::*;

verus! {

/// A unit of mining work.
#[derive(Debug, Clone, PartialEq, Eq)]
pub struct MiningJob {
    pub id: String,
    pub target_hashrate: u64,
}

/// A request to create a vault for a beneficiary under a schedule.
#[derive(Debug, Clone, PartialEq, Eq)]
pub struct VaultInitRequest {
    pub beneficiary: String,
    pub schedule: VaultSchedule,
}

impl VaultInitRequest {
    /// A request for the given beneficiary and schedule.
    pub fn new(beneficiary: String, schedule: VaultSchedule) -> (r: VaultInitRequest)
        ensures
            r.beneficiary == beneficiary,
            r.schedule == schedule,
    {
        VaultInitRequest { beneficiary, schedule }
    }

    /// The fresh vault this request describes, with nothing claimed yet.
    pub fn into_vault(self) -> (r: VaultAccount)
        ensures
            r.beneficiary == self.beneficiary,
            r.schedule == self.schedule,
            r.claimed_amount == 0,
    {
        VaultAccount::new(self.beneficiary, self.schedule)
    }
}

/// A request to claim from a vault at a given time.
#[derive(Debug, Clone, PartialEq, Eq)]
pub struct VaultClaimRequest {
    pub vault_id: String,
    pub now_ts: i64,
}

impl VaultClaimRequest {
    /// A request against the given vault at the given time.
    pub fn new(vault_id: String, now_ts: i64) -> (r: VaultClaimRequest)
        ensures
            r.vault_id == vault_id,
            r.now_ts == now_ts,
    {
        VaultClaimRequest { vault_id, now_ts }
    }
}

/// The lifecycle of a launch run by the service.
#[derive(Debug, Clone, Copy, PartialEq, Eq)]
pub enum LaunchStatus {
    Pending,
    Running,
    Succeeded,
    Failed,
}

/// The service's answer to a creation request.
#[derive(Debug, Clone, PartialEq, Eq)]
pub struct LaunchCreateResponse {
    pub launch_id: String,
    pub status: LaunchStatus,
}

/// A status query for one launch of one user.
#[derive(Debug, Clone, PartialEq, Eq)]
pub struct LaunchStatusRequest {
    pub user_id: String,
    pub launch_id: String,
}

/// The service's answer to a status query.
#[derive(Debug, Clone, PartialEq, Eq)]
pub struct LaunchStatusResponse {
    pub launch_id: String,
    pub status: LaunchStatus,
    pub result: Option<LaunchResultInfo>,
}

/// How a finished launch went.
#[derive(Debug, Clone, PartialEq, Eq)]
pub struct LaunchResultInfo {
    pub success: bool,
    pub message: Option<String>,
}

/// Estimates hashrate as a thousand hashes per core.
pub fn estimate_hashrate(cores: u16) -> (r: u64)
    ensures
        r == cores * 1000,
{
    (cores as u64) * 1000
}

/// Pulls claimable rewards from the vault based on its schedule.
pub fn pull_scheduled_rewards(vault: &mut VaultAccount, now_ts: i64) -> (amount: u64)
    ensures
        amount == claimable_amount_spec(old(vault).schedule, now_ts, old(vault).claimed_amount),
        final(vault).claimed_amount == sat_add_u64_spec(old(vault).claimed_amount, amount),
        final(vault).schedule == old(vault).schedule,
        final(vault).beneficiary == old(vault).beneficiary,
        final(vault).implementation == old(vault).implementation,
{
    vault.claim(now_ts)
}

} // verus!
