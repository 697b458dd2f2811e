use ore_core::lifecycle::{
    initialize_lp_pool_plan, initialize_vault_plan, process_instruction,
};
use ore_core::pda::{lp_pool_pda, vault_pda};
use ore_core::wire::RewardsLockInstruction;
use ore_core::{AccountView, Address, ProtocolError, VaultSchedule};
use solana_sdk::pubkey::Pubkey;

fn unique_address() -> Address {
    Address(Pubkey::new_unique().to_bytes())
}

fn schedule() -> VaultSchedule {
    VaultSchedule {
        start_ts: 1_725_000_000,
        cliff_ts: Some(1_725_100_000),
        period_seconds: 86_400,
        release_per_period: 10_000,
        period_count: 180,
    }
}

fn system_account() -> AccountView {
    AccountView {
        address: Address([0u8; 32]),
        is_signer: false,
        data_is_empty: true,
    }
}

fn vault_accounts(
    program_id: &Address,
    beneficiary: &Address,
    schedule: &VaultSchedule,
) -> Vec<AccountView> {
    let (vault_address, _bump) = vault_pda(beneficiary, schedule, program_id).expect("derive");
    vec![
        AccountView {
            address: vault_address,
            is_signer: false,
            data_is_empty: true,
        },
        AccountView {
            address: unique_address(),
            is_signer: true,
            data_is_empty: false,
        },
        AccountView {
            address: *beneficiary,
            is_signer: false,
            data_is_empty: true,
        },
        system_account(),
    ]
}

#[test]
fn initialize_vault_accepts_matching_accounts() {
    let program_id = unique_address();
    let beneficiary = unique_address();
    let s = schedule();
    let accounts = vault_accounts(&program_id, &beneficiary, &s);
    let plan = initialize_vault_plan(&program_id, &accounts, &beneficiary, &s).expect("accepted");
    assert_eq!(plan.state.beneficiary, beneficiary);
    assert_eq!(plan.state.schedule, s);
    assert_eq!(plan.account_data, plan.state.to_bytes());
    assert_eq!(plan.signer_seeds.len(), 4);
    assert_eq!(plan.signer_seeds[0], b"vault".to_vec());
    assert_eq!(plan.signer_seeds[1], beneficiary.0.to_vec());
    assert_eq!(plan.signer_seeds[3], vec![plan.state.bump]);

    let (expected_address, bump) = vault_pda(&beneficiary, &s, &program_id).expect("derive");
    assert_eq!(accounts[0].address, expected_address);
    assert_eq!(plan.state.bump, bump);
}

#[test]
fn initialize_vault_rejects_each_bad_account() {
    let program_id = unique_address();
    let beneficiary = unique_address();
    let s = schedule();
    let good = vault_accounts(&program_id, &beneficiary, &s);

    let short = good[..3].to_vec();
    assert_eq!(
        initialize_vault_plan(&program_id, &short, &beneficiary, &s).unwrap_err(),
        ProtocolError::InsufficientAccounts
    );

    let mut unsigned = good.clone();
    unsigned[1].is_signer = false;
    assert_eq!(
        initialize_vault_plan(&program_id, &unsigned, &beneficiary, &s).unwrap_err(),
        ProtocolError::MissingAuthorization
    );

    let mut wrong_system = good.clone();
    wrong_system[3].address = unique_address();
    assert_eq!(
        initialize_vault_plan(&program_id, &wrong_system, &beneficiary, &s).unwrap_err(),
        ProtocolError::IncorrectAuthority
    );

    let mut wrong_beneficiary = good.clone();
    wrong_beneficiary[2].address = unique_address();
    assert_eq!(
        initialize_vault_plan(&program_id, &wrong_beneficiary, &beneficiary, &s).unwrap_err(),
        ProtocolError::AssetMismatch
    );

    let mut occupied = good.clone();
    occupied[0].data_is_empty = false;
    assert_eq!(
        initialize_vault_plan(&program_id, &occupied, &beneficiary, &s).unwrap_err(),
        ProtocolError::AlreadyInitialized
    );

    let mut substituted = good.clone();
    substituted[0].address = unique_address();
    assert_eq!(
        initialize_vault_plan(&program_id, &substituted, &beneficiary, &s).unwrap_err(),
        ProtocolError::AddressMismatch
    );
}

#[test]
fn process_instruction_decodes_and_dispatches() {
    let program_id = unique_address();
    let beneficiary = unique_address();
    let s = schedule();
    let accounts = vault_accounts(&program_id, &beneficiary, &s);
    let data = RewardsLockInstruction::InitializeVault {
        beneficiary,
        schedule: s,
    }
    .to_bytes();

    let plan = process_instruction(&program_id, &accounts, &data).expect("accepted");
    assert_eq!(plan.state.beneficiary, beneficiary);
    assert_eq!(plan.state.schedule, s);

    assert_eq!(
        process_instruction(&program_id, &accounts, &data[..data.len() - 1]).unwrap_err(),
        ProtocolError::MalformedInstruction
    );
}

#[test]
fn initialize_lp_pool_accepts_and_rejects() {
    let program_id = unique_address();
    let base_mint = unique_address();
    let quote_mint = unique_address();
    let payer = unique_address();
    let (pool_address, bump) = lp_pool_pda(&base_mint, &program_id).expect("derive");
    let good = vec![
        AccountView {
            address: pool_address,
            is_signer: false,
            data_is_empty: true,
        },
        AccountView {
            address: payer,
            is_signer: true,
            data_is_empty: false,
        },
        AccountView {
            address: base_mint,
            is_signer: false,
            data_is_empty: false,
        },
        AccountView {
            address: quote_mint,
            is_signer: false,
            data_is_empty: false,
        },
        system_account(),
    ];

    let plan =
        initialize_lp_pool_plan(&program_id, &good, &base_mint, &quote_mint).expect("accepted");
    assert_eq!(plan.pool.base_mint, base_mint);
    assert_eq!(plan.pool.quote_mint, quote_mint);
    assert_eq!(plan.pool.authority, payer);
    assert_eq!(plan.pool.bump, bump);
    assert_eq!(plan.signer_seeds[0], b"lp_pool".to_vec());
    assert_eq!(plan.signer_seeds[1], base_mint.0.to_vec());
    assert_eq!(plan.signer_seeds[2], vec![bump]);

    let short = good[..4].to_vec();
    assert_eq!(
        initialize_lp_pool_plan(&program_id, &short, &base_mint, &quote_mint).unwrap_err(),
        ProtocolError::InsufficientAccounts
    );

    let mut surplus = good.clone();
    surplus.push(system_account());
    assert_eq!(
        initialize_lp_pool_plan(&program_id, &surplus, &base_mint, &quote_mint).unwrap_err(),
        ProtocolError::InsufficientAccounts
    );

    let mut unsigned = good.clone();
    unsigned[1].is_signer = false;
    assert_eq!(
        initialize_lp_pool_plan(&program_id, &unsigned, &base_mint, &quote_mint).unwrap_err(),
        ProtocolError::MissingAuthorization
    );

    let mut wrong_mint = good.clone();
    wrong_mint[2].address = unique_address();
    assert_eq!(
        initialize_lp_pool_plan(&program_id, &wrong_mint, &base_mint, &quote_mint).unwrap_err(),
        ProtocolError::AssetMismatch
    );

    let mut substituted = good.clone();
    substituted[0].address = unique_address();
    assert_eq!(
        initialize_lp_pool_plan(&program_id, &substituted, &base_mint, &quote_mint).unwrap_err(),
        ProtocolError::AddressMismatch
    );

    let mut wrong_system = good.clone();
    wrong_system[4].address = unique_address();
    assert_eq!(
        initialize_lp_pool_plan(&program_id, &wrong_system, &base_mint, &quote_mint).unwrap_err(),
        ProtocolError::IncorrectAuthority
    );

    let mut occupied = good.clone();
    occupied[0].data_is_empty = false;
    assert_eq!(
        initialize_lp_pool_plan(&program_id, &occupied, &base_mint, &quote_mint).unwrap_err(),
        ProtocolError::AlreadyInitialized
    );
}
