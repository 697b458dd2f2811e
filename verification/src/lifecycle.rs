//! Account lifecycles: creating a content-addressed vesting vault and a
//! liquidity pool record. Every operation recomputes the expected address
//! from its own seeds and rejects a mismatch before any state is prepared;
//! a failure at any step leaves nothing to apply.

use crate::addr::{bytes32_to_vec, system_program_address, Address};
use crate::pda::{
    lp_pool_pda, lp_pool_pda_spec, lp_pool_seed, lp_pool_seed_spec, vault_pda, vault_pda_spec,
    vault_schedule_hash, vault_schedule_hash_spec, vault_seed, vault_seed_spec,
};
use crate::schedule::VaultSchedule;
use crate::wire::{
    decode_init_vault, spec_decode_init_vault, spec_encode_vault_state, RewardsLockInstruction,
    VaultState,
};
use vstd::prelude::*;

verus! {

/// One failure kind per failed validation; an operation that fails leaves no
/// observable effect.
#[derive(Debug, Clone, Copy, PartialEq, Eq)]
pub enum ProtocolError {
    /// A supplied account address does not match its recomputed derivation.
    AddressMismatch,
    /// Creation was requested against a non-empty account.
    AlreadyInitialized,
    /// A required authorizing party did not sign.
    MissingAuthorization,
    /// A supplied asset or owner binding does not match the expected one.
    AssetMismatch,
    /// The requested amount is below the protocol floor.
    AmountTooSmall,
    /// The operation was not supplied the expected set of accounts.
    InsufficientAccounts,
    /// An account's recorded owning program does not match the expected one.
    IncorrectAuthority,
    /// The argument payload is not a well-formed instruction encoding.
    MalformedInstruction,
}

/// What the host delivers about one named account: its address, whether its
/// holder signed, and whether its data is still empty.
#[derive(Debug, Clone, Copy, PartialEq, Eq)]
pub struct AccountView {
    pub address: Address,
    pub is_signer: bool,
    pub data_is_empty: bool,
}

/// The all-zero address of the host's account-creation program.
pub open spec fn system_program_id_spec() -> Seq<u8> {
    Seq::new(32, |i: int| 0u8)
}

/// Everything the host needs to create and fill a vault account: the record,
/// its serialized bytes (the account is sized exactly for them), and the seed
/// path that authorizes writes to the derived address.
#[derive(Debug)]
pub struct VaultInitPlan {
    pub state: VaultState,
    pub account_data: Vec<u8>,
    pub signer_seeds: Vec<Vec<u8>>,
}

/// Whether the four delivered accounts pass every vault-creation check for
/// the given beneficiary and schedule.
pub open spec fn vault_init_accepted(
    program_id: Address,
    accounts: Seq<AccountView>,
    beneficiary: Address,
    schedule: VaultSchedule,
) -> bool {
    &&& accounts.len() >= 4
    &&& accounts[1].is_signer
    &&& accounts[3].address@ == system_program_id_spec()
    &&& accounts[2].address@ == beneficiary@
    &&& accounts[0].data_is_empty
    &&& (match vault_pda_spec(beneficiary@, schedule, program_id@) {
        Some(p) => p.0 == accounts[0].address@,
        None => false,
    })
}

/// Validates a vault creation and prepares the record to write. The checks
/// run in a fixed order and the first failure decides the error: enough
/// accounts, a signing payer, the real account-creation program, the
/// beneficiary account matching the instruction, an empty vault account, and
/// the vault address matching its recomputed derivation.
pub fn initialize_vault_plan(
    program_id: &Address,
    accounts: &Vec<AccountView>,
    beneficiary: &Address,
    schedule: &VaultSchedule,
) -> (r: Result<VaultInitPlan, ProtocolError>)
    ensures
        (match r {
            Ok(plan) => {
                &&& vault_init_accepted(*program_id, accounts@, *beneficiary, *schedule)
                &&& plan.state.beneficiary == *beneficiary
                &&& plan.state.schedule == *schedule
                &&& vault_pda_spec(beneficiary@, *schedule, program_id@) == Some(
                    (accounts@[0].address@, plan.state.bump),
                )
                &&& plan.account_data@ == spec_encode_vault_state(
                    beneficiary@,
                    *schedule,
                    plan.state.bump,
                )
                &&& plan.signer_seeds.deep_view() =~~= seq![
                    vault_seed_spec(),
                    beneficiary@,
                    vault_schedule_hash_spec(*schedule),
                    seq![plan.state.bump],
                ]
            },
            Err(e) => {
                &&& !vault_init_accepted(*program_id, accounts@, *beneficiary, *schedule)
                &&& e == ProtocolError::InsufficientAccounts <==> accounts@.len() < 4
                &&& e == ProtocolError::MissingAuthorization <==> accounts@.len() >= 4
                    && !accounts@[1].is_signer
                &&& e == ProtocolError::IncorrectAuthority <==> accounts@.len() >= 4
                    && accounts@[1].is_signer && accounts@[3].address@ != system_program_id_spec()
                &&& e == ProtocolError::AssetMismatch <==> accounts@.len() >= 4
                    && accounts@[1].is_signer && accounts@[3].address@ == system_program_id_spec()
                    && accounts@[2].address@ != beneficiary@
                &&& e == ProtocolError::AlreadyInitialized <==> accounts@.len() >= 4
                    && accounts@[1].is_signer && accounts@[3].address@ == system_program_id_spec()
                    && accounts@[2].address@ == beneficiary@ && !accounts@[0].data_is_empty
                &&& e == ProtocolError::AddressMismatch <==> accounts@.len() >= 4
                    && accounts@[1].is_signer && accounts@[3].address@ == system_program_id_spec()
                    && accounts@[2].address@ == beneficiary@ && accounts@[0].data_is_empty && (
                match vault_pda_spec(beneficiary@, *schedule, program_id@) {
                    Some(p) => p.0 != accounts@[0].address@,
                    None => true,
                })
            },
        }),
{
    if accounts.len() < 4 {
        return Err(ProtocolError::InsufficientAccounts);
    }
    let vault_account = &accounts[0];
    let payer_account = &accounts[1];
    let beneficiary_account = &accounts[2];
    let system_program_account = &accounts[3];

    if !payer_account.is_signer {
        return Err(ProtocolError::MissingAuthorization);
    }
    let system_id = system_program_address();
    if !system_program_account.address.matches(&system_id) {
        return Err(ProtocolError::IncorrectAuthority);
    }
    if !beneficiary_account.address.matches(beneficiary) {
        return Err(ProtocolError::AssetMismatch);
    }
    if !vault_account.data_is_empty {
        return Err(ProtocolError::AlreadyInitialized);
    }

    let derived = vault_pda(beneficiary, schedule, program_id);
    match derived {
        None => Err(ProtocolError::AddressMismatch),
        Some((expected_vault_address, bump)) => {
            if !expected_vault_address.matches(&vault_account.address) {
                return Err(ProtocolError::AddressMismatch);
            }
            let state = VaultState { beneficiary: *beneficiary, schedule: *schedule, bump };
            let account_data = state.to_bytes();
            let schedule_hash = vault_schedule_hash(schedule);
            let mut signer_seeds: Vec<Vec<u8>> = Vec::new();
            signer_seeds.push(vault_seed());
            signer_seeds.push(beneficiary.to_vec());
            signer_seeds.push(bytes32_to_vec(&schedule_hash));
            let bump_seed: Vec<u8> = vec![bump];
            proof {
                assert(bump_seed@ =~= seq![bump]);
            }
            signer_seeds.push(bump_seed);
            proof {
                assert(signer_seeds.deep_view() =~~= seq![
                    vault_seed_spec(),
                    beneficiary@,
                    vault_schedule_hash_spec(*schedule),
                    seq![bump],
                ]);
            }
            Ok(VaultInitPlan { state, account_data, signer_seeds })
        },
    }
}

/// Decodes the argument payload and runs the operation it names. The only
/// operation of the reward-locking program is vault creation.
pub fn process_instruction(
    program_id: &Address,
    accounts: &Vec<AccountView>,
    data: &[u8],
) -> (r: Result<VaultInitPlan, ProtocolError>)
    ensures
        (match spec_decode_init_vault(data@) {
            None => r == Err::<VaultInitPlan, ProtocolError>(ProtocolError::MalformedInstruction),
            Some((b, s)) => (match r {
                Ok(plan) => {
                    &&& b == plan.state.beneficiary@
                    &&& s == plan.state.schedule
                    &&& vault_init_accepted(*program_id, accounts@, plan.state.beneficiary, s)
                    &&& vault_pda_spec(b, s, program_id@) == Some(
                        (accounts@[0].address@, plan.state.bump),
                    )
                    &&& plan.account_data@ == spec_encode_vault_state(b, s, plan.state.bump)
                    &&& plan.signer_seeds.deep_view() =~~= seq![
                        vault_seed_spec(),
                        b,
                        vault_schedule_hash_spec(s),
                        seq![plan.state.bump],
                    ]
                },
                Err(e) => e != ProtocolError::MalformedInstruction && (forall|ben: Address|
                    ben@ == b ==> !vault_init_accepted(*program_id, accounts@, ben, s)),
            }),
        }),
{
    match decode_init_vault(data) {
        None => Err(ProtocolError::MalformedInstruction),
        Some(instruction) => {
            match instruction {
                RewardsLockInstruction::InitializeVault { beneficiary, schedule } => {
                    let r = initialize_vault_plan(program_id, accounts, &beneficiary, &schedule);
                    proof {
                        if r is Err {
                            assert forall|ben: Address| ben@ == beneficiary@ implies
                                !vault_init_accepted(*program_id, accounts@, ben, schedule) by {
                                assert(vault_init_accepted(*program_id, accounts@, ben, schedule)
                                    == vault_init_accepted(
                                    *program_id,
                                    accounts@,
                                    beneficiary,
                                    schedule,
                                ));
                            }
                        }
                    }
                    r
                },
            }
        },
    }
}

/// A liquidity pool record, scoped to its base mint and created at most once.
#[derive(Debug, Clone, Copy, PartialEq, Eq)]
pub struct LpPool {
    pub base_mint: Address,
    pub quote_mint: Address,
    pub authority: Address,
    pub bump: u8,
    pub reserved: [u8; 7],
}

/// Everything the host needs to create the pool record: the record itself and
/// the seed path that authorizes writes to the derived address.
#[derive(Debug)]
pub struct LpPoolInitPlan {
    pub pool: LpPool,
    pub signer_seeds: Vec<Vec<u8>>,
}

/// Whether the five delivered accounts pass every pool-creation check for the
/// given mints.
pub open spec fn lp_pool_init_accepted(
    program_id: Address,
    accounts: Seq<AccountView>,
    base_mint: Address,
    quote_mint: Address,
) -> bool {
    &&& accounts.len() == 5
    &&& accounts[1].is_signer
    &&& accounts[2].address@ == base_mint@
    &&& accounts[3].address@ == quote_mint@
    &&& (match lp_pool_pda_spec(base_mint@, program_id@) {
        Some(p) => p.0 == accounts[0].address@,
        None => false,
    })
    &&& accounts[4].address@ == system_program_id_spec()
    &&& accounts[0].data_is_empty
}

/// Validates a pool creation and prepares the record to write. The checks run
/// in a fixed order and the first failure decides the error: exactly the
/// expected accounts,
/// a signing payer, both mint accounts matching the instruction, the pool
/// address matching its recomputed derivation, the real account-creation
/// program, and an empty pool account.
pub fn initialize_lp_pool_plan(
    program_id: &Address,
    accounts: &Vec<AccountView>,
    base_mint: &Address,
    quote_mint: &Address,
) -> (r: Result<LpPoolInitPlan, ProtocolError>)
    ensures
        (match r {
            Ok(plan) => {
                &&& lp_pool_init_accepted(*program_id, accounts@, *base_mint, *quote_mint)
                &&& plan.pool.base_mint == *base_mint
                &&& plan.pool.quote_mint == *quote_mint
                &&& plan.pool.authority == accounts@[1].address
                &&& lp_pool_pda_spec(base_mint@, program_id@) == Some(
                    (accounts@[0].address@, plan.pool.bump),
                )
                &&& plan.signer_seeds.deep_view() =~~= seq![
                    lp_pool_seed_spec(),
                    base_mint@,
                    seq![plan.pool.bump],
                ]
            },
            Err(e) => {
                &&& !lp_pool_init_accepted(*program_id, accounts@, *base_mint, *quote_mint)
                &&& e == ProtocolError::InsufficientAccounts <==> accounts@.len() != 5
                &&& e == ProtocolError::MissingAuthorization <==> accounts@.len() == 5
                    && !accounts@[1].is_signer
                &&& e == ProtocolError::AssetMismatch <==> accounts@.len() == 5
                    && accounts@[1].is_signer && (accounts@[2].address@ != base_mint@
                    || accounts@[3].address@ != quote_mint@)
                &&& e == ProtocolError::AddressMismatch <==> accounts@.len() == 5
                    && accounts@[1].is_signer && accounts@[2].address@ == base_mint@
                    && accounts@[3].address@ == quote_mint@ && (match lp_pool_pda_spec(
                    base_mint@,
                    program_id@,
                ) {
                    Some(p) => p.0 != accounts@[0].address@,
                    None => true,
                })
                &&& e == ProtocolError::IncorrectAuthority <==> accounts@.len() == 5
                    && accounts@[1].is_signer && accounts@[2].address@ == base_mint@
                    && accounts@[3].address@ == quote_mint@ && (match lp_pool_pda_spec(
                    base_mint@,
                    program_id@,
                ) {
                    Some(p) => p.0 == accounts@[0].address@,
                    None => false,
                }) && accounts@[4].address@ != system_program_id_spec()
                &&& e == ProtocolError::AlreadyInitialized <==> accounts@.len() == 5
                    && accounts@[1].is_signer && accounts@[2].address@ == base_mint@
                    && accounts@[3].address@ == quote_mint@ && (match lp_pool_pda_spec(
                    base_mint@,
                    program_id@,
                ) {
                    Some(p) => p.0 == accounts@[0].address@,
                    None => false,
                }) && accounts@[4].address@ == system_program_id_spec()
                    && !accounts@[0].data_is_empty
            },
        }),
{
    if accounts.len() != 5 {
        return Err(ProtocolError::InsufficientAccounts);
    }
    let lp_pool_account = &accounts[0];
    let payer_account = &accounts[1];
    let base_mint_account = &accounts[2];
    let quote_mint_account = &accounts[3];
    let system_program_account = &accounts[4];

    if !payer_account.is_signer {
        return Err(ProtocolError::MissingAuthorization);
    }
    if !base_mint_account.address.matches(base_mint) || !quote_mint_account.address.matches(
        quote_mint,
    ) {
        return Err(ProtocolError::AssetMismatch);
    }
    let derived = lp_pool_pda(base_mint, program_id);
    let (expected_lp_pool, bump) = match derived {
        None => {
            return Err(ProtocolError::AddressMismatch);
        },
        Some(p) => p,
    };
    if !expected_lp_pool.matches(&lp_pool_account.address) {
        return Err(ProtocolError::AddressMismatch);
    }
    let system_id = system_program_address();
    if !system_program_account.address.matches(&system_id) {
        return Err(ProtocolError::IncorrectAuthority);
    }
    if !lp_pool_account.data_is_empty {
        return Err(ProtocolError::AlreadyInitialized);
    }

    let pool = LpPool {
        base_mint: *base_mint,
        quote_mint: *quote_mint,
        authority: payer_account.address,
        bump,
        reserved: [0u8; 7],
    };
    let mut signer_seeds: Vec<Vec<u8>> = Vec::new();
    signer_seeds.push(lp_pool_seed());
    signer_seeds.push(base_mint.to_vec());
    let bump_seed: Vec<u8> = vec![bump];
    proof {
        assert(bump_seed@ =~= seq![bump]);
    }
    signer_seeds.push(bump_seed);
    proof {
        assert(signer_seeds.deep_view() =~~= seq![lp_pool_seed_spec(), base_mint@, seq![bump]]);
    }
    Ok(LpPoolInitPlan { pool, signer_seeds })
}

} // verus!
