//! Deterministic address derivation and proportional value distribution for a
//! ledger-resident token protocol: seed-based account addressing, an accrual
//! index that shares value with stakers in constant time, linear vesting
//! schedules with optional cliffs, and the conservation-checked bury/split
//! accounting that ties them together.

pub mod accrual;
pub mod addr;
pub mod arith;
pub mod codec;
pub mod launch;
pub mod lifecycle;
pub mod mining;
pub mod ops;
pub mod pda;
pub mod policy;
pub mod records;
pub mod schedule;
pub mod service;
pub mod wallet;
pub mod wire;

pub use accrual::{owed, share, StakeAccount, Treasury};
pub use addr::Address;
pub use launch::{
    build_plan, default_decimals, resolve_program_ids, LaunchConfig, LaunchError, LaunchPlan,
    LauncherConfig, LpPoolConfig, LpPoolPlan, MintConfig, MintPlan, OutputConfig, ProgramIdsConfig,
    ProgramIdsPlan, VaultConfig, VaultPlan, VaultScheduleConfig,
};
pub use lifecycle::{AccountView, LpPool, LpPoolInitPlan, ProtocolError, VaultInitPlan};
pub use mining::{
    estimate_hashrate, pull_scheduled_rewards, LaunchCreateResponse, LaunchResultInfo,
    LaunchStatus, LaunchStatusRequest, LaunchStatusResponse, MiningJob, VaultClaimRequest,
    VaultInitRequest,
};
pub use ops::{bury, process_bury, BuryEvent, BuryOutcome, BuryPlan, Config, OreError};
pub use pda::{
    associated_token_address, board_pda, config_pda, lp_pool_pda, round_pda, stake_pda,
    treasury_pda, treasury_signer_seeds, treasury_tokens_address, vault_pda, vault_schedule_hash,
};
pub use policy::{
    ActionPolicyConfig, AdminAction, AdminActionPayload, BackendConfig, BackendStatus,
    OnChainState, ScheduleConfig, WalletConfig,
};
pub use schedule::{VaultAccount, VaultImplementation, VaultSchedule};
pub use service::{LaunchRecord, LaunchStore, StoreError};
pub use wallet::{normalize_wallet_path, wallet_path_display};
pub use wire::{InitializeLpPool, RewardsLockInstruction, VaultState};
