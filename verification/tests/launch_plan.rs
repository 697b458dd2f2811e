use ore_core::launch::{build_plan, resolve_program_ids, to_schedule, LaunchError};
use ore_core::pda::{lp_pool_pda, vault_pda};
use ore_core::{
    LaunchConfig, LauncherConfig, LpPoolConfig, MintConfig, OutputConfig, ProgramIdsConfig,
    VaultConfig, VaultScheduleConfig,
};
use ore_core::addr::Address;
use solana_sdk::pubkey::Pubkey;

fn program_ids_config() -> ProgramIdsConfig {
    ProgramIdsConfig {
        ore: Some(Pubkey::new_unique().to_string()),
        mining: Some(Pubkey::new_unique().to_string()),
        rewards_lock: Some(Pubkey::new_unique().to_string()),
    }
}

fn launch_config() -> LaunchConfig {
    LaunchConfig {
        name: None,
        rpc_url: "https://example.com".to_string(),
        payer_wallet: "payer.json".to_string(),
        mint: MintConfig {
            address: Some(Pubkey::new_unique().to_string()),
            symbol: "ORE".to_string(),
            decimals: 11,
            authority: None,
        },
        lp_pool: LpPoolConfig {
            base_mint: None,
            quote_mint: Pubkey::new_unique().to_string(),
        },
        vaults: Vec::new(),
        output: None,
    }
}

fn payer() -> Address {
    Address(Pubkey::new_unique().to_bytes())
}

#[test]
fn program_ids_missing_in_launcher_config_fails() {
    let programs = ProgramIdsConfig {
        ore: None,
        mining: Some(Pubkey::new_unique().to_string()),
        rewards_lock: Some(Pubkey::new_unique().to_string()),
    };

    let error = resolve_program_ids(&programs).unwrap_err();
    assert!(error.message().contains("programs.ore"));
}

#[test]
fn shared_program_ids_reused_for_each_launch() {
    let launcher_config = LauncherConfig {
        programs: program_ids_config(),
    };
    let first = build_plan(&launch_config(), &launcher_config, payer()).unwrap();
    let second = build_plan(&launch_config(), &launcher_config, payer()).unwrap();

    assert_eq!(first.program_ids.ore, second.program_ids.ore);
    assert_eq!(first.program_ids.mining, second.program_ids.mining);
    assert_eq!(
        first.program_ids.rewards_lock,
        second.program_ids.rewards_lock
    );
}

#[test]
fn missing_mint_address_errors() {
    let launcher_config = LauncherConfig {
        programs: program_ids_config(),
    };
    let mut config = launch_config();
    config.mint.address = None;

    let error = build_plan(&config, &launcher_config, payer()).unwrap_err();
    assert!(error
        .message()
        .contains("mint.address must be supplied to derive PDA addresses"));
}

#[test]
fn lp_pool_address_is_derived_from_mint() {
    let launcher_config = LauncherConfig {
        programs: program_ids_config(),
    };
    let config = launch_config();
    let plan = build_plan(&config, &launcher_config, payer()).unwrap();
    let (expected, _bump) =
        lp_pool_pda(&plan.mint.address, &plan.program_ids.mining).expect("derive lp pool pda");

    assert_eq!(plan.lp_pool.address, expected);
}

#[test]
fn vault_address_is_derived_from_schedule_and_beneficiary() {
    let launcher_config = LauncherConfig {
        programs: program_ids_config(),
    };
    let mut config = launch_config();
    config.vaults = vec![VaultConfig {
        label: Some("team".to_string()),
        beneficiary: Pubkey::new_unique().to_string(),
        schedule: VaultScheduleConfig {
            start_ts: 1,
            cliff_ts: None,
            period_seconds: 1,
            release_per_period: 1,
            period_count: 1,
        },
    }];

    let plan = build_plan(&config, &launcher_config, payer()).unwrap();
    let vault = &plan.vaults[0];
    let (expected, _bump) = vault_pda(
        &vault.beneficiary,
        &vault.schedule,
        &plan.program_ids.rewards_lock,
    )
    .expect("derive vault pda");

    assert_eq!(vault.address, expected);
    assert_eq!(vault.label.as_deref(), Some("team"));
}

#[test]
fn parse_pubkey_decodes_base58_text() {
    let parsed = ore_core::launch::parse_pubkey("payer", "11111111111111111111111111111111")
        .expect("valid base58");
    assert_eq!(parsed.0, [0u8; 32]);
    let key = Pubkey::new_unique();
    let parsed = ore_core::launch::parse_pubkey("payer", &key.to_string()).expect("valid base58");
    assert_eq!(parsed.0, key.to_bytes());
}

#[test]
fn invalid_program_id_text_errors() {
    let programs = ProgramIdsConfig {
        ore: Some("not base58!".to_string()),
        mining: Some(Pubkey::new_unique().to_string()),
        rewards_lock: Some(Pubkey::new_unique().to_string()),
    };
    let error = resolve_program_ids(&programs).unwrap_err();
    assert_eq!(error.message(), "invalid programs.ore pubkey");
}

#[test]
fn blank_beneficiary_is_rejected() {
    let launcher_config = LauncherConfig {
        programs: program_ids_config(),
    };
    let mut config = launch_config();
    config.vaults = vec![VaultConfig {
        label: None,
        beneficiary: " \t".to_string(),
        schedule: VaultScheduleConfig {
            start_ts: 1,
            cliff_ts: None,
            period_seconds: 1,
            release_per_period: 1,
            period_count: 1,
        },
    }];
    let error = build_plan(&config, &launcher_config, payer()).unwrap_err();
    assert_eq!(error, LaunchError::MissingBeneficiary);
    assert_eq!(
        error.message(),
        "vaults.beneficiary is required to derive PDA"
    );
}

#[test]
fn schedule_validation_rejects_bad_periods() {
    let good = VaultScheduleConfig {
        start_ts: 1_000,
        cliff_ts: Some(1_100),
        period_seconds: 100,
        release_per_period: 5,
        period_count: 10,
    };
    let zero_period = VaultScheduleConfig {
        period_seconds: 0,
        ..good
    };
    let zero_count = VaultScheduleConfig {
        period_count: 0,
        ..good
    };

    let schedule = to_schedule(&good).unwrap();
    assert_eq!(schedule.start_ts, 1_000);
    assert_eq!(schedule.cliff_ts, Some(1_100));
    assert_eq!(schedule.period_seconds, 100);
    assert_eq!(schedule.release_per_period, 5);
    assert_eq!(schedule.period_count, 10);

    let error = to_schedule(&zero_period).unwrap_err();
    assert_eq!(
        error.message(),
        "vault schedule period_seconds must be positive"
    );
    let error = to_schedule(&zero_count).unwrap_err();
    assert_eq!(
        error.message(),
        "vault schedule period_count must be greater than zero"
    );
}

#[test]
fn plan_carries_the_configured_mint_and_output_settings() {
    let launcher_config = LauncherConfig {
        programs: program_ids_config(),
    };
    let mut config = launch_config();
    config.name = Some("mainnet run".to_string());
    config.output = Some(OutputConfig {
        path: "launch-summary.json".to_string(),
    });
    let authority = Pubkey::new_unique();
    config.mint.authority = Some(authority.to_string());

    let plan = build_plan(&config, &launcher_config, payer()).unwrap();
    assert_eq!(plan.name.as_deref(), Some("mainnet run"));
    assert_eq!(plan.mint.symbol, "ORE");
    assert_eq!(plan.mint.decimals, 11);
    assert_eq!(plan.mint.authority, Some(Address(authority.to_bytes())));
}
