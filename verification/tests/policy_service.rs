use ore_core::service::u64_to_decimal;
use ore_core::{
    estimate_hashrate, normalize_wallet_path, pull_scheduled_rewards, wallet_path_display,
    ActionPolicyConfig, AdminAction, BackendStatus, LaunchStatus, LaunchStatusRequest,
    LaunchStore, OnChainState, ScheduleConfig, StoreError, VaultAccount, VaultClaimRequest,
    VaultInitRequest, VaultSchedule, WalletConfig,
};
use ore_core::LaunchResultInfo;

fn state(slot: u64, last_reset_slot: Option<u64>, treasury_lamports: u64) -> OnChainState {
    OnChainState {
        slot,
        last_reset_slot,
        treasury_lamports,
    }
}

#[test]
fn evaluate_emits_reset_when_gap_reached() {
    let policy = ActionPolicyConfig {
        enable_reset: true,
        enable_buyback: false,
        reset_min_slot_gap: Some(100),
        buyback_min_treasury_lamports: None,
    };
    assert_eq!(
        policy.evaluate(&state(1_000, Some(900), 0)),
        vec![AdminAction::Reset]
    );
    assert_eq!(policy.evaluate(&state(1_000, Some(901), 0)), vec![]);
    assert_eq!(
        policy.evaluate(&state(1_000, None, 0)),
        vec![AdminAction::Reset]
    );
    // A stale slot reading saturates to a zero gap instead of wrapping.
    assert_eq!(policy.evaluate(&state(800, Some(900), 0)), vec![]);
}

#[test]
fn evaluate_emits_buyback_at_the_threshold() {
    let policy = ActionPolicyConfig {
        enable_reset: false,
        enable_buyback: true,
        reset_min_slot_gap: None,
        buyback_min_treasury_lamports: Some(5_000),
    };
    assert_eq!(policy.evaluate(&state(0, None, 4_999)), vec![]);
    assert_eq!(
        policy.evaluate(&state(0, None, 5_000)),
        vec![AdminAction::Buyback]
    );
}

#[test]
fn evaluate_orders_reset_before_buyback() {
    let policy = ActionPolicyConfig {
        enable_reset: true,
        enable_buyback: true,
        reset_min_slot_gap: Some(1),
        buyback_min_treasury_lamports: Some(1),
    };
    assert_eq!(
        policy.evaluate(&state(10, Some(1), 10)),
        vec![AdminAction::Reset, AdminAction::Buyback]
    );
}

#[test]
fn evaluate_respects_disabled_actions_and_missing_thresholds() {
    let disabled = ActionPolicyConfig {
        enable_reset: false,
        enable_buyback: false,
        reset_min_slot_gap: Some(0),
        buyback_min_treasury_lamports: Some(0),
    };
    assert_eq!(disabled.evaluate(&state(100, None, 100)), vec![]);

    let no_thresholds = ActionPolicyConfig {
        enable_reset: true,
        enable_buyback: true,
        reset_min_slot_gap: None,
        buyback_min_treasury_lamports: None,
    };
    assert_eq!(no_thresholds.evaluate(&state(100, None, 100)), vec![]);
}

#[test]
fn defaults_match_the_documented_policy() {
    let policy = ActionPolicyConfig::default();
    assert!(policy.enable_reset);
    assert!(policy.enable_buyback);
    assert_eq!(policy.reset_min_slot_gap, None);
    assert_eq!(policy.buyback_min_treasury_lamports, None);

    let schedule = ScheduleConfig::default();
    assert_eq!(schedule.poll_interval_secs, 15);

    let wallet = WalletConfig::default();
    assert_eq!(wallet.path, None);
    assert_eq!(wallet.env.as_deref(), Some("LAUNCHER_WALLET"));

    assert!(BackendStatus::ok().healthy);
}

#[test]
fn store_assigns_sequential_ids_and_finds_records() {
    let mut store = LaunchStore::new();
    let first = store.create_launch("alice".to_string(), "{}".to_string());
    assert_eq!(first.launch_id, "launch-1");
    assert_eq!(first.status, LaunchStatus::Pending);
    let second = store.create_launch("bob".to_string(), "{}".to_string());
    assert_eq!(second.launch_id, "launch-2");

    let found = store
        .get_launch_status(&LaunchStatusRequest {
            user_id: "alice".to_string(),
            launch_id: "launch-1".to_string(),
        })
        .expect("record exists");
    assert_eq!(found.launch_id, "launch-1");
    assert_eq!(found.status, LaunchStatus::Pending);
    assert_eq!(found.result, None);

    let missing = store
        .get_launch_status(&LaunchStatusRequest {
            user_id: "alice".to_string(),
            launch_id: "launch-2".to_string(),
        })
        .unwrap_err();
    let StoreError::LaunchNotFound { user_id, launch_id } = missing;
    assert_eq!(user_id, "alice");
    assert_eq!(launch_id, "launch-2");
}

#[test]
fn store_updates_status_and_result_in_place() {
    let mut store = LaunchStore::new();
    store.create_launch("alice".to_string(), "{}".to_string());
    let updated = store
        .update_launch_result(
            "alice".to_string(),
            "launch-1".to_string(),
            LaunchStatus::Succeeded,
            Some(LaunchResultInfo {
                success: true,
                message: Some("done".to_string()),
            }),
        )
        .expect("record exists");
    assert_eq!(updated.status, LaunchStatus::Succeeded);
    assert_eq!(
        updated.result,
        Some(LaunchResultInfo {
            success: true,
            message: Some("done".to_string()),
        })
    );

    let reread = store
        .get_launch_status(&LaunchStatusRequest {
            user_id: "alice".to_string(),
            launch_id: "launch-1".to_string(),
        })
        .expect("record exists");
    assert_eq!(reread.status, LaunchStatus::Succeeded);

    let missing = store
        .update_launch_result(
            "mallory".to_string(),
            "launch-1".to_string(),
            LaunchStatus::Failed,
            None,
        )
        .unwrap_err();
    let StoreError::LaunchNotFound { user_id, .. } = missing;
    assert_eq!(user_id, "mallory");
}

#[test]
fn decimal_rendering_matches_std() {
    for n in [0u64, 1, 9, 10, 99, 100, 12_345, u64::MAX] {
        assert_eq!(u64_to_decimal(n), n.to_string());
    }
}

#[test]
fn wallet_path_helpers_keep_the_text() {
    assert_eq!(wallet_path_display("/tmp/wallet.json"), "/tmp/wallet.json");
    assert_eq!(normalize_wallet_path("wallet.json"), "wallet.json");
}

#[test]
fn mining_requests_carry_their_fields() {
    let schedule = VaultSchedule {
        start_ts: 1_000,
        cliff_ts: None,
        period_seconds: 100,
        release_per_period: 5,
        period_count: 10,
    };
    let request = VaultInitRequest::new("miner".to_string(), schedule);
    assert_eq!(request.beneficiary, "miner");
    let vault: VaultAccount = request.into_vault();
    assert_eq!(vault.beneficiary, "miner");
    assert_eq!(vault.claimed_amount, 0);

    let claim = VaultClaimRequest::new("vault-7".to_string(), 1_100);
    assert_eq!(claim.vault_id, "vault-7");
    assert_eq!(claim.now_ts, 1_100);
}

#[test]
fn hashrate_and_scheduled_rewards() {
    assert_eq!(estimate_hashrate(0), 0);
    assert_eq!(estimate_hashrate(8), 8_000);
    assert_eq!(estimate_hashrate(u16::MAX), 65_535_000);

    let schedule = VaultSchedule {
        start_ts: 1_000,
        cliff_ts: None,
        period_seconds: 100,
        release_per_period: 5,
        period_count: 10,
    };
    let mut vault = VaultAccount::new("miner".to_string(), schedule);
    assert_eq!(pull_scheduled_rewards(&mut vault, 1_250), 10);
    assert_eq!(pull_scheduled_rewards(&mut vault, 1_250), 0);
    assert_eq!(vault.claimed_amount, 10);
}
