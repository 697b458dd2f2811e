//! The administrative action policy: a pure decision function from observed
//! chain state to the actions the off-chain scheduler should submit, plus the
//! configuration records it reads. Polling, signing, and submission belong to
//! the scheduler around the library.

use crate::arith::{sat_sub_u64, sat_sub_u64_spec};
use vstd::prelude::*;

verus! {

/// An administrative action the policy can call for.
#[derive(Debug, Clone, Copy, PartialEq, Eq)]
pub enum AdminAction {
    Reset,
    Buyback,
}

/// An action with the chain position and wall-clock time it was decided at.
#[derive(Debug, Clone, Copy, PartialEq, Eq)]
pub struct AdminActionPayload {
    pub action: AdminAction,
    pub slot: u64,
    pub timestamp: u64,
}

/// What the scheduler observed on chain.
#[derive(Debug, Clone, Copy, PartialEq, Eq)]
pub struct OnChainState {
    pub slot: u64,
    pub last_reset_slot: Option<u64>,
    pub treasury_lamports: u64,
}

/// A liveness report.
#[derive(Debug, Clone, Copy, PartialEq, Eq)]
pub struct BackendStatus {
    pub healthy: bool,
}

impl BackendStatus {
    /// A healthy report.
    pub fn ok() -> (r: BackendStatus)
        ensures
            r.healthy,
    {
        BackendStatus { healthy: true }
    }
}

/// Where the scheduler's signing wallet lives.
#[derive(Debug, Clone, PartialEq, Eq)]
pub struct WalletConfig {
    pub path: Option<String>,
    pub env: Option<String>,
}

impl Default for WalletConfig {
    /// No path configured; the wallet comes from the default environment
    /// variable.
    fn default() -> (r: WalletConfig)
        ensures
            r.path is None,
            (match r.env {
                Some(e) => e@ == "LAUNCHER_WALLET"@,
                None => false,
            }),
    {
        WalletConfig { path: None, env: Some("LAUNCHER_WALLET".to_owned()) }
    }
}

/// How often the scheduler polls.
#[derive(Debug, Clone, Copy, PartialEq, Eq)]
pub struct ScheduleConfig {
    pub poll_interval_secs: u64,
}

impl Default for ScheduleConfig {
    /// Poll every fifteen seconds.
    fn default() -> (r: ScheduleConfig)
        ensures
            r.poll_interval_secs == 15,
    {
        ScheduleConfig { poll_interval_secs: 15 }
    }
}

/// Which actions the policy may take, and their thresholds.
#[derive(Debug, Clone, Copy, PartialEq, Eq)]
pub struct ActionPolicyConfig {
    pub enable_reset: bool,
    pub enable_buyback: bool,
    pub reset_min_slot_gap: Option<u64>,
    pub buyback_min_treasury_lamports: Option<u64>,
}

impl Default for ActionPolicyConfig {
    /// Both actions enabled, with no thresholds set.
    fn default() -> (r: ActionPolicyConfig)
        ensures
            r.enable_reset,
            r.enable_buyback,
            r.reset_min_slot_gap is None,
            r.buyback_min_treasury_lamports is None,
    {
        ActionPolicyConfig {
            enable_reset: true,
            enable_buyback: true,
            reset_min_slot_gap: None,
            buyback_min_treasury_lamports: None,
        }
    }
}

/// The scheduler's whole configuration.
#[derive(Debug, Clone, PartialEq, Eq)]
pub struct BackendConfig {
    pub rpc_url: String,
    pub wallet: WalletConfig,
    pub schedule: ScheduleConfig,
    pub policy: ActionPolicyConfig,
}

/// Whether the policy calls for a reset: resets are enabled with a slot-gap
/// threshold set, and either no reset happened yet or the gap since the last
/// one has been reached.
pub open spec fn wants_reset(p: ActionPolicyConfig, state: OnChainState) -> bool {
    &&& p.enable_reset
    &&& p.reset_min_slot_gap is Some
    &&& (match (state.last_reset_slot, p.reset_min_slot_gap) {
        (Some(last), Some(gap)) => sat_sub_u64_spec(state.slot, last) >= gap,
        (None, Some(_)) => true,
        _ => false,
    })
}

/// Whether the policy calls for a buyback: buybacks are enabled with a
/// treasury threshold set, and the treasury holds at least that much.
pub open spec fn wants_buyback(p: ActionPolicyConfig, state: OnChainState) -> bool {
    &&& p.enable_buyback
    &&& (match p.buyback_min_treasury_lamports {
        Some(min) => state.treasury_lamports >= min,
        None => false,
    })
}

/// The actions the policy calls for, reset first.
pub open spec fn evaluate_spec(p: ActionPolicyConfig, state: OnChainState) -> Seq<AdminAction> {
    let resets: Seq<AdminAction> = if wants_reset(p, state) {
        seq![AdminAction::Reset]
    } else {
        Seq::empty()
    };
    let buybacks: Seq<AdminAction> = if wants_buyback(p, state) {
        seq![AdminAction::Buyback]
    } else {
        Seq::empty()
    };
    resets + buybacks
}

impl ActionPolicyConfig {
    /// Decides which administrative actions the observed state calls for.
    pub fn evaluate(&self, state: &OnChainState) -> (actions: Vec<AdminAction>)
        ensures
            actions@ == evaluate_spec(*self, *state),
    {
        let mut actions: Vec<AdminAction> = Vec::new();
        if self.enable_reset {
            if let Some(min_gap) = self.reset_min_slot_gap {
                let should_reset = match state.last_reset_slot {
                    Some(last) => sat_sub_u64(state.slot, last) >= min_gap,
                    None => true,
                };
                if should_reset {
                    actions.push(AdminAction::Reset);
                }
            }
        }
        if self.enable_buyback {
            if let Some(min_lamports) = self.buyback_min_treasury_lamports {
                if state.treasury_lamports >= min_lamports {
                    actions.push(AdminAction::Buyback);
                }
            }
        }
        proof {
            assert(actions@ =~= evaluate_spec(*self, *state));
        }
        actions
    }
}

} // verus!
