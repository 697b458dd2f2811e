use ore_core::addr::Address;
use ore_core::wire::{
    decode_init_lp_pool, decode_init_vault, decode_vault_state, InitializeLpPool,
    RewardsLockInstruction, VaultState,
};
use ore_core::VaultSchedule;
use solana_sdk::pubkey::Pubkey as SdkPubkey;

fn unique_address() -> Address {
    Address(SdkPubkey::new_unique().to_bytes())
}

#[test]
fn initialize_lp_pool_data_matches_program_decoder() {
    let base_mint = unique_address();
    let quote_mint = unique_address();
    let data = InitializeLpPool::new(base_mint, quote_mint).to_bytes();
    let decoded = decode_init_lp_pool(&data).expect("decode initialize lp pool");
    assert_eq!(decoded.base_mint.0, base_mint.0);
    assert_eq!(decoded.quote_mint.0, quote_mint.0);
}

#[test]
fn initialize_vault_data_matches_program_decoder() {
    let beneficiary = unique_address();
    let schedule = VaultSchedule {
        start_ts: 123,
        cliff_ts: Some(456),
        period_seconds: 789,
        release_per_period: 10,
        period_count: 3,
    };
    let instruction = RewardsLockInstruction::InitializeVault {
        beneficiary,
        schedule,
    };
    let data = instruction.to_bytes();
    let decoded = decode_init_vault(&data).expect("decode initialize vault");
    assert_eq!(
        decoded,
        RewardsLockInstruction::InitializeVault {
            beneficiary,
            schedule,
        }
    );
}

#[test]
fn init_vault_payload_matches_borsh_layout() {
    let beneficiary = unique_address();
    let schedule = VaultSchedule {
        start_ts: 123,
        cliff_ts: Some(456),
        period_seconds: 789,
        release_per_period: 10,
        period_count: 3,
    };
    let data = RewardsLockInstruction::InitializeVault {
        beneficiary,
        schedule,
    }
    .to_bytes();
    let reference = borsh::to_vec(&(
        0u8,
        beneficiary.0,
        123i64,
        Some(456i64),
        789i64,
        10u64,
        3u64,
    ))
    .expect("serialize reference payload");
    assert_eq!(data, reference);
}

#[test]
fn vault_state_bytes_match_borsh_layout() {
    let beneficiary = unique_address();
    let state = VaultState {
        beneficiary,
        schedule: VaultSchedule {
            start_ts: -5,
            cliff_ts: None,
            period_seconds: 7,
            release_per_period: 11,
            period_count: 13,
        },
        bump: 254,
    };
    let data = state.to_bytes();
    let reference = borsh::to_vec(&(
        beneficiary.0,
        -5i64,
        Option::<i64>::None,
        7i64,
        11u64,
        13u64,
        254u8,
    ))
    .expect("serialize reference state");
    assert_eq!(data, reference);

    let decoded = decode_vault_state(&data).expect("decode vault state");
    assert_eq!(decoded, state);
}

#[test]
fn state_records_round_trip_through_their_fixed_layouts() {
    let config = ore_core::Config {
        admin: unique_address(),
        mint: unique_address(),
        reward_per_round: 100,
        max_supply: 21_000_000,
        motherlode_bps: 3_333,
        stake_bps: 2_000,
        reserved: [7u8; 24],
    };
    let bytes = ore_core::records::encode_config(&config);
    assert_eq!(bytes.len(), 120);
    assert_eq!(&bytes[..32], &config.admin.0);
    assert_eq!(&bytes[32..64], &config.mint.0);
    assert_eq!(&bytes[64..72], &100u64.to_le_bytes());
    assert_eq!(&bytes[96..], &[7u8; 24]);
    assert_eq!(ore_core::records::decode_config(&bytes), Some(config));
    assert_eq!(ore_core::records::decode_config(&bytes[..119]), None);

    let treasury = ore_core::Treasury {
        total_staked: 500,
        accrual_index: u128::MAX - 3,
    };
    let bytes = ore_core::records::encode_treasury(&treasury);
    assert_eq!(bytes.len(), 24);
    assert_eq!(&bytes[..8], &500u64.to_le_bytes());
    assert_eq!(&bytes[8..], &(u128::MAX - 3).to_le_bytes());
    assert_eq!(ore_core::records::decode_treasury(&bytes), Some(treasury));

    let pool = ore_core::LpPool {
        base_mint: unique_address(),
        quote_mint: unique_address(),
        authority: unique_address(),
        bump: 253,
        reserved: [0u8; 7],
    };
    let bytes = ore_core::records::encode_lp_pool(&pool);
    assert_eq!(bytes.len(), 104);
    assert_eq!(bytes[96], 253);
    assert_eq!(ore_core::records::decode_lp_pool(&bytes), Some(pool));

    let bytes = ore_core::records::encode_bury_ix(777);
    assert_eq!(bytes.len(), 9);
    assert_eq!(ore_core::records::decode_bury_ix(&bytes), Some(777));
    assert_eq!(ore_core::records::decode_bury_ix(&bytes[..8]), None);
}

#[test]
fn truncated_or_padded_payloads_are_rejected() {
    let beneficiary = unique_address();
    let schedule = VaultSchedule {
        start_ts: 1,
        cliff_ts: None,
        period_seconds: 1,
        release_per_period: 1,
        period_count: 1,
    };
    let mut data = RewardsLockInstruction::InitializeVault {
        beneficiary,
        schedule,
    }
    .to_bytes();
    data.push(0);
    assert!(decode_init_vault(&data).is_none());
    data.pop();
    data.pop();
    assert!(decode_init_vault(&data).is_none());
    assert!(decode_init_vault(&[]).is_none());

    let mut state_bytes = VaultState {
        beneficiary,
        schedule,
        bump: 1,
    }
    .to_bytes();
    state_bytes[32 + 8] = 2;
    assert!(decode_vault_state(&state_bytes).is_none());
}

#[test]
fn wrong_instruction_tag_is_rejected() {
    let beneficiary = unique_address();
    let schedule = VaultSchedule {
        start_ts: 1,
        cliff_ts: None,
        period_seconds: 1,
        release_per_period: 1,
        period_count: 1,
    };
    let mut data = RewardsLockInstruction::InitializeVault {
        beneficiary,
        schedule,
    }
    .to_bytes();
    data[0] = 9;
    assert!(decode_init_vault(&data).is_none());
}
