use ore_core::accrual::{owed, share, INDEX_SCALE};
use ore_core::addr::Address;
use ore_core::{bury, Config, OreError, ProtocolError, StakeAccount, Treasury};

fn config(motherlode_bps: u64, stake_bps: u64) -> Config {
    Config {
        admin: Address([1u8; 32]),
        mint: Address([2u8; 32]),
        reward_per_round: 100,
        max_supply: 21_000_000,
        motherlode_bps,
        stake_bps,
        reserved: [0u8; 24],
    }
}

#[test]
fn bury_clamps_shares_and_conserves() {
    let mut treasury = Treasury {
        total_staked: 500,
        accrual_index: 0,
    };
    let outcome = bury(&mut treasury, 1000, 700, 2000);
    assert_eq!(outcome.transferred, 700);
    assert_eq!(outcome.shared, 140);
    assert_eq!(outcome.burned, 560);
    assert_eq!(outcome.transferred, outcome.shared + outcome.burned);
    assert_eq!(treasury.accrual_index, 140 * INDEX_SCALE / 500);
}

#[test]
fn bury_without_stake_burns_everything() {
    let mut treasury = Treasury {
        total_staked: 0,
        accrual_index: 9,
    };
    let outcome = bury(&mut treasury, 1000, 700, 2000);
    assert_eq!(outcome.transferred, 700);
    assert_eq!(outcome.shared, 0);
    assert_eq!(outcome.burned, 700);
    assert_eq!(treasury.accrual_index, 9);
}

#[test]
fn bury_conserves_across_edge_inputs() {
    let cases = [
        (0u64, 0u64, 0u64, 0u64),
        (0, 500, 10_000, 7),
        (u64::MAX, u64::MAX, 10_000, 1),
        (u64::MAX, u64::MAX, 0, 1),
        (1, u64::MAX, 9_999, u64::MAX),
        (u64::MAX, 3, 5_000, 0),
    ];
    for (requested, balance, bps, staked) in cases {
        let mut treasury = Treasury {
            total_staked: staked,
            accrual_index: 0,
        };
        let before = treasury.accrual_index;
        let outcome = bury(&mut treasury, requested, balance, bps);
        assert_eq!(outcome.transferred, requested.min(balance));
        assert_eq!(outcome.transferred, outcome.shared + outcome.burned);
        assert!(treasury.accrual_index >= before);
    }
}

#[test]
fn accrual_index_never_decreases_across_bury_sequences() {
    let mut treasury = Treasury {
        total_staked: 3,
        accrual_index: 0,
    };
    let mut previous = treasury.accrual_index;
    for (requested, balance, bps) in [
        (10u64, 10u64, 10_000u64),
        (0, 0, 10_000),
        (1, 1, 1),
        (u64::MAX, u64::MAX, 10_000),
        (5, 2, 0),
    ] {
        bury(&mut treasury, requested, balance, bps);
        assert!(treasury.accrual_index >= previous);
        previous = treasury.accrual_index;
    }
}

#[test]
fn tiny_shares_are_never_truncated_to_nothing() {
    // One unit shared across the largest possible stake still moves the index.
    let delta = share(u64::MAX, 1);
    assert!(delta > 0);
}

#[test]
fn share_computes_the_exact_fixed_point_quotient() {
    assert_eq!(share(500, 140), 140 * INDEX_SCALE / 500);
    assert_eq!(share(1, 1), INDEX_SCALE);
    assert_eq!(share(3, 1), INDEX_SCALE / 3);
}

#[test]
fn owed_floors_and_never_overpays() {
    let delta = share(500, 140);
    // The double floor keeps one base unit for the ledger here.
    assert_eq!(owed(500, delta, 0), 139);
    assert_eq!(owed(1, INDEX_SCALE, 0), 1);
    assert_eq!(owed(7, 3 * INDEX_SCALE, INDEX_SCALE), 14);
    assert_eq!(owed(0, u128::MAX, 0), 0);
    // A huge index delta clamps at the largest representable amount.
    assert_eq!(owed(u64::MAX, u128::MAX, 0), u64::MAX);
}

#[test]
fn reconcile_copies_the_current_index() {
    let treasury = Treasury {
        total_staked: 500,
        accrual_index: 3 * INDEX_SCALE,
    };
    let mut stake = StakeAccount {
        owner: Address([5u8; 32]),
        staked: 20,
        last_synced_index: INDEX_SCALE,
    };
    let amount = stake.reconcile(&treasury);
    assert_eq!(amount, 40);
    assert_eq!(stake.last_synced_index, treasury.accrual_index);
    assert_eq!(stake.reconcile(&treasury), 0);
}

#[test]
fn split_reward_is_complete() {
    let c = config(3333, 0);
    let (top_miner, motherlode) = c.split_reward(777);
    assert_eq!(motherlode, 258);
    assert_eq!(top_miner, 519);
    assert_eq!(top_miner + motherlode, 777);

    for reward in [0u64, 1, 9_999, 10_000, u64::MAX] {
        for bps in [0u64, 1, 5_000, 9_999, 10_000] {
            let c = config(bps, 0);
            let (primary, motherlode) = c.split_reward(reward);
            assert_eq!(primary + motherlode, reward);
        }
    }
}

#[test]
fn process_bury_revalidates_every_derived_address() {
    let program_id = Address(
        solana_sdk::pubkey::Pubkey::new_unique().to_bytes(),
    );
    let mint = Address(solana_sdk::pubkey::Pubkey::new_unique().to_bytes());
    let c = Config {
        mint,
        ..config(0, 2000)
    };
    let signer = Address(solana_sdk::pubkey::Pubkey::new_unique().to_bytes());
    let (config_address, _) = ore_core::config_pda(&mint, &program_id).expect("derive");
    let (board_address, _) = ore_core::board_pda(&mint, &program_id).expect("derive");
    let (treasury_address, treasury_bump) =
        ore_core::treasury_pda(&mint, &program_id).expect("derive");
    let (sender_address, _) =
        ore_core::associated_token_address(&signer, &mint).expect("derive");
    let (treasury_tokens, _) =
        ore_core::associated_token_address(&treasury_address, &mint).expect("derive");
    let token_program = Address(spl_token::ID.to_bytes());
    let account = |address: Address, is_signer: bool| ore_core::AccountView {
        address,
        is_signer,
        data_is_empty: false,
    };
    let other = || Address(solana_sdk::pubkey::Pubkey::new_unique().to_bytes());
    let good = vec![
        account(signer, true),
        account(sender_address, false),
        account(board_address, false),
        account(config_address, false),
        account(mint, false),
        account(treasury_address, false),
        account(treasury_tokens, false),
        account(token_program, false),
        account(program_id, false),
    ];

    let mut treasury = Treasury {
        total_staked: 500,
        accrual_index: 0,
    };
    let plan = ore_core::process_bury(&program_id, &good, &c, &mut treasury, 1000, 700)
        .expect("accepted");
    assert_eq!(plan.outcome.transferred, 700);
    assert_eq!(plan.outcome.shared, 140);
    assert_eq!(plan.outcome.burned, 560);
    assert_eq!(plan.treasury_seeds[0], b"treasury".to_vec());
    assert_eq!(plan.treasury_seeds[1], mint.0.to_vec());
    assert_eq!(plan.treasury_seeds[2], vec![treasury_bump]);

    let mut treasury = Treasury {
        total_staked: 500,
        accrual_index: 3,
    };
    let short = good[..8].to_vec();
    assert_eq!(
        ore_core::process_bury(&program_id, &short, &c, &mut treasury, 1, 1).unwrap_err(),
        ProtocolError::InsufficientAccounts
    );
    let mut surplus = good.clone();
    surplus.push(account(other(), false));
    assert_eq!(
        ore_core::process_bury(&program_id, &surplus, &c, &mut treasury, 1, 1).unwrap_err(),
        ProtocolError::InsufficientAccounts
    );
    let mut unsigned = good.clone();
    unsigned[0].is_signer = false;
    assert_eq!(
        ore_core::process_bury(&program_id, &unsigned, &c, &mut treasury, 1, 1).unwrap_err(),
        ProtocolError::MissingAuthorization
    );
    for index in [1usize, 2, 3, 5, 6] {
        let mut substituted = good.clone();
        substituted[index].address = other();
        assert_eq!(
            ore_core::process_bury(&program_id, &substituted, &c, &mut treasury, 1, 1)
                .unwrap_err(),
            ProtocolError::AddressMismatch
        );
    }
    let mut wrong_mint = good.clone();
    wrong_mint[4].address = other();
    assert_eq!(
        ore_core::process_bury(&program_id, &wrong_mint, &c, &mut treasury, 1, 1).unwrap_err(),
        ProtocolError::AssetMismatch
    );
    for index in [7usize, 8] {
        let mut wrong_program = good.clone();
        wrong_program[index].address = other();
        assert_eq!(
            ore_core::process_bury(&program_id, &wrong_program, &c, &mut treasury, 1, 1)
                .unwrap_err(),
            ProtocolError::IncorrectAuthority
        );
    }
    assert_eq!(treasury.accrual_index, 3);
}

#[test]
fn bury_event_encoding_has_the_fixed_layout() {
    let outcome = ore_core::BuryOutcome {
        transferred: 700,
        shared: 140,
        burned: 560,
    };
    let event = ore_core::BuryEvent::new(&outcome, 21_000_000, -42);
    assert_eq!(event.buried, 560);
    assert_eq!(event.shared, 140);
    assert_eq!(event.sol_amount, 0);
    let bytes = event.to_bytes();
    let mut expected = vec![1u8];
    expected.extend_from_slice(&560u64.to_le_bytes());
    expected.extend_from_slice(&140u64.to_le_bytes());
    expected.extend_from_slice(&0u64.to_le_bytes());
    expected.extend_from_slice(&21_000_000u64.to_le_bytes());
    expected.extend_from_slice(&(-42i64).to_le_bytes());
    assert_eq!(bytes, expected);
}

#[test]
fn error_codes_are_stable() {
    assert_eq!(OreError::AmountTooSmall.code(), 0);
    assert_eq!(OreError::NotAuthorized.code(), 1);
    assert_eq!(OreError::MissingPayerSignature.code(), 2);
    assert_eq!(OreError::MintAddressMismatch.code(), 3);
    assert_eq!(OreError::LpPoolPdaMismatch.code(), 4);
    assert_eq!(OreError::LpPoolAlreadyInitialized.code(), 5);
}
