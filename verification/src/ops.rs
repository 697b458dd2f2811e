//! Value-conserving operations: the bury flow that transfers, shares with
//! stakers, and burns the rest, and the reward split between the primary
//! winner and the motherlode. Both guarantee that the parts sum to the whole
//! exactly, for every input.

use crate::accrual::{share_delta_spec, Treasury};
use crate::addr::Address;
use crate::lifecycle::{AccountView, ProtocolError};
use crate::pda::{
    associated_token_address, associated_token_address_spec, board_pda, board_pda_spec,
    config_pda, config_pda_spec, token_program_id, token_program_id_spec, treasury_pda,
    treasury_pda_spec, treasury_seed, treasury_seed_spec,
};
use crate::arith::{sat_add_u128_spec, sat_mul_u64, sat_mul_u64_spec};
use crate::codec::{i64_to_le_bytes, spec_i64_to_le_bytes};
use vstd::bytes::{spec_u64_to_le_bytes, u64_to_le_bytes};
use vstd::arithmetic::div_mod::{lemma_div_is_ordered, lemma_div_multiples_vanish};
use vstd::arithmetic::mul::lemma_mul_inequality;
use vstd::prelude::*;

verus! {

/// Basis points denominator: shares are expressed in ten-thousandths.
pub const DENOMINATOR_BPS: u64 = 10000;

/// Protocol-level failures, one kind per failed validation.
#[derive(Debug, Clone, Copy, PartialEq, Eq)]
pub enum OreError {
    AmountTooSmall,
    NotAuthorized,
    MissingPayerSignature,
    MintAddressMismatch,
    LpPoolPdaMismatch,
    LpPoolAlreadyInitialized,
}

impl OreError {
    /// The stable numeric code reported to the host for this error kind.
    pub fn code(&self) -> (r: u32)
        ensures
            r == (match *self {
                OreError::AmountTooSmall => 0u32,
                OreError::NotAuthorized => 1u32,
                OreError::MissingPayerSignature => 2u32,
                OreError::MintAddressMismatch => 3u32,
                OreError::LpPoolPdaMismatch => 4u32,
                OreError::LpPoolAlreadyInitialized => 5u32,
            }),
    {
        match *self {
            OreError::AmountTooSmall => 0,
            OreError::NotAuthorized => 1,
            OreError::MissingPayerSignature => 2,
            OreError::MintAddressMismatch => 3,
            OreError::LpPoolPdaMismatch => 4,
            OreError::LpPoolAlreadyInitialized => 5,
        }
    }
}

/// One protocol deployment's configuration record.
#[derive(Debug, Clone, Copy, PartialEq, Eq)]
pub struct Config {
    /// The address that can update the config.
    pub admin: Address,
    /// The mint for this protocol instance.
    pub mint: Address,
    /// The total amount minted per round.
    pub reward_per_round: u64,
    /// The max supply for the token.
    pub max_supply: u64,
    /// Basis points of the round reward allocated to the motherlode.
    pub motherlode_bps: u64,
    /// Basis points of buried value shared with stakers.
    pub stake_bps: u64,
    /// Reserved for future config fields.
    pub reserved: [u8; 24],
}

/// A share of `amount` at `bps` basis points never exceeds `amount` itself,
/// even where the intermediate product saturates.
pub proof fn lemma_bps_share_bounded(amount: u64, bps: u64)
    requires
        bps <= DENOMINATOR_BPS,
    ensures
        sat_mul_u64_spec(amount, bps) / DENOMINATOR_BPS <= amount,
{
    lemma_mul_inequality(bps as int, DENOMINATOR_BPS as int, amount as int);
    assert(bps * amount == amount * bps) by (nonlinear_arith);
    assert(DENOMINATOR_BPS * amount == amount * DENOMINATOR_BPS) by (nonlinear_arith);
    if amount * bps > u64::MAX {
        lemma_div_is_ordered(u64::MAX as int, amount * DENOMINATOR_BPS, DENOMINATOR_BPS as int);
    } else {
        lemma_div_is_ordered(amount * bps, amount * DENOMINATOR_BPS, DENOMINATOR_BPS as int);
    }
    lemma_div_multiples_vanish(amount as int, DENOMINATOR_BPS as int);
    assert(DENOMINATOR_BPS * amount == amount * DENOMINATOR_BPS) by (nonlinear_arith);
}

impl Config {
    /// Splits a round reward between the primary winner and the motherlode.
    /// The motherlode share is floored; the primary share is the exact
    /// remainder, so the two always sum to the whole reward.
    pub fn split_reward(&self, total_reward: u64) -> (r: (u64, u64))
        requires
            self.motherlode_bps <= DENOMINATOR_BPS,
        ensures
            r.1 == sat_mul_u64_spec(total_reward, self.motherlode_bps) / DENOMINATOR_BPS,
            r.1 <= total_reward,
            r.0 == total_reward - r.1,
            r.0 + r.1 == total_reward,
    {
        proof {
            lemma_bps_share_bounded(total_reward, self.motherlode_bps);
        }
        let motherlode_reward = sat_mul_u64(total_reward, self.motherlode_bps) / DENOMINATOR_BPS;
        let top_miner_reward = total_reward - motherlode_reward;
        (top_miner_reward, motherlode_reward)
    }
}

/// The amount a bury actually moves: the requested amount clamped to the
/// sender's balance, never a failure on a stale balance read.
pub open spec fn bury_transferred_spec(amount_requested: u64, sender_balance: u64) -> u64 {
    if amount_requested <= sender_balance {
        amount_requested
    } else {
        sender_balance
    }
}

/// The part of a transferred amount shared with stakers: the basis-point
/// share, floored, or nothing at all while no stake exists.
pub open spec fn bury_shared_spec(transferred: u64, stake_bps: u64, total_staked: u64) -> u64 {
    if total_staked > 0 {
        (sat_mul_u64_spec(transferred, stake_bps) / DENOMINATOR_BPS) as u64
    } else {
        0
    }
}

/// What a bury did: the parts always sum to the transferred amount exactly.
#[derive(Debug, Clone, Copy, PartialEq, Eq)]
pub struct BuryOutcome {
    pub transferred: u64,
    pub shared: u64,
    pub burned: u64,
}

/// Buries value: transfers at most the sender's balance, shares the
/// basis-point portion with stakers through the treasury's accrual index
/// (or folds it into the burn while no stake exists), and burns the rest.
/// Conservation holds exactly: `transferred == shared + burned`.
pub fn bury(
    treasury: &mut Treasury,
    amount_requested: u64,
    sender_balance: u64,
    stake_bps: u64,
) -> (r: BuryOutcome)
    requires
        stake_bps <= DENOMINATOR_BPS,
    ensures
        r.transferred == bury_transferred_spec(amount_requested, sender_balance),
        r.shared == bury_shared_spec(r.transferred, stake_bps, old(treasury).total_staked),
        r.burned == r.transferred - r.shared,
        r.shared + r.burned == r.transferred,
        final(treasury).total_staked == old(treasury).total_staked,
        final(treasury).accrual_index == (if old(treasury).total_staked > 0 {
            sat_add_u128_spec(
                old(treasury).accrual_index,
                share_delta_spec(old(treasury).total_staked, r.shared),
            )
        } else {
            old(treasury).accrual_index
        }),
        old(treasury).accrual_index <= final(treasury).accrual_index,
{
    let transferred = if amount_requested <= sender_balance {
        amount_requested
    } else {
        sender_balance
    };
    let mut shared: u64 = 0;
    if treasury.total_staked > 0 {
        proof {
            lemma_bps_share_bounded(transferred, stake_bps);
        }
        shared = sat_mul_u64(transferred, stake_bps) / DENOMINATOR_BPS;
        treasury.credit_share(shared);
    }
    let burned = transferred - shared;
    BuryOutcome { transferred, shared, burned }
}

/// The event tag of a bury record in the append-only log.
pub const BURY_EVENT_TAG: u8 = 1;

/// The structured event record a successful bury appends to the host's log:
/// the amounts moved, the resulting circulating supply, and the timestamp.
#[derive(Debug, Clone, Copy, PartialEq, Eq)]
pub struct BuryEvent {
    pub buried: u64,
    pub shared: u64,
    pub sol_amount: u64,
    pub new_circulating_supply: u64,
    pub ts: i64,
}

/// The encoding of a bury event: the tag, then every field in fixed order and
/// width, little endian.
pub open spec fn spec_encode_bury_event(e: BuryEvent) -> Seq<u8> {
    seq![BURY_EVENT_TAG] + spec_u64_to_le_bytes(e.buried) + spec_u64_to_le_bytes(e.shared)
        + spec_u64_to_le_bytes(e.sol_amount) + spec_u64_to_le_bytes(e.new_circulating_supply)
        + spec_i64_to_le_bytes(e.ts)
}

impl BuryEvent {
    /// The event a bury outcome produces, at the given supply and time.
    pub fn new(outcome: &BuryOutcome, new_circulating_supply: u64, ts: i64) -> (r: BuryEvent)
        ensures
            r.buried == outcome.burned,
            r.shared == outcome.shared,
            r.sol_amount == 0,
            r.new_circulating_supply == new_circulating_supply,
            r.ts == ts,
    {
        BuryEvent {
            buried: outcome.burned,
            shared: outcome.shared,
            sol_amount: 0,
            new_circulating_supply,
            ts,
        }
    }

    /// Encodes this event for the append-only log.
    pub fn to_bytes(&self) -> (r: Vec<u8>)
        ensures
            r@ == spec_encode_bury_event(*self),
    {
        let mut out: Vec<u8> = Vec::new();
        out.push(BURY_EVENT_TAG);
        let mut part = u64_to_le_bytes(self.buried);
        out.append(&mut part);
        let mut part = u64_to_le_bytes(self.shared);
        out.append(&mut part);
        let mut part = u64_to_le_bytes(self.sol_amount);
        out.append(&mut part);
        let mut part = u64_to_le_bytes(self.new_circulating_supply);
        out.append(&mut part);
        let mut part = i64_to_le_bytes(self.ts);
        out.append(&mut part);
        proof {
            assert(out@ =~= spec_encode_bury_event(*self));
        }
        out
    }
}

/// The first bury validation that the delivered accounts fail, or `None`
/// when every check passes. The expected accounts, in order: the signing
/// sender, the sender's token account, the board, the config, the mint, the
/// treasury, the treasury's token account, the token program, and this
/// program itself. Every derived address — config, board, treasury, and both
/// associated-token accounts — is recomputed from its own seeds.
pub open spec fn bury_first_failure(
    program_id: Address,
    accounts: Seq<AccountView>,
    config: Config,
) -> Option<ProtocolError> {
    if accounts.len() != 9 {
        Some(ProtocolError::InsufficientAccounts)
    } else if !accounts[0].is_signer {
        Some(ProtocolError::MissingAuthorization)
    } else if (match config_pda_spec(config.mint@, program_id@) {
        Some(p) => p.0 != accounts[3].address@,
        None => true,
    }) {
        Some(ProtocolError::AddressMismatch)
    } else if (match associated_token_address_spec(accounts[0].address@, config.mint@) {
        Some(p) => p.0 != accounts[1].address@,
        None => true,
    }) {
        Some(ProtocolError::AddressMismatch)
    } else if (match board_pda_spec(config.mint@, program_id@) {
        Some(p) => p.0 != accounts[2].address@,
        None => true,
    }) {
        Some(ProtocolError::AddressMismatch)
    } else if accounts[4].address@ != config.mint@ {
        Some(ProtocolError::AssetMismatch)
    } else if (match treasury_pda_spec(config.mint@, program_id@) {
        Some(p) => p.0 != accounts[5].address@,
        None => true,
    }) {
        Some(ProtocolError::AddressMismatch)
    } else if (match associated_token_address_spec(accounts[5].address@, config.mint@) {
        Some(p) => p.0 != accounts[6].address@,
        None => true,
    }) {
        Some(ProtocolError::AddressMismatch)
    } else if accounts[7].address@ != token_program_id_spec() {
        Some(ProtocolError::IncorrectAuthority)
    } else if accounts[8].address@ != program_id@ {
        Some(ProtocolError::IncorrectAuthority)
    } else {
        None
    }
}

/// Everything the host needs to finish a validated bury: the amounts, and
/// the treasury's seed path — the same path that derives its address — under
/// which the burn out of the treasury's token account is authorized.
#[derive(Debug)]
pub struct BuryPlan {
    pub outcome: BuryOutcome,
    pub treasury_seeds: Vec<Vec<u8>>,
}

/// Validates a bury operation's accounts against their recomputed
/// derivations, then runs the conserving transfer/share/burn accounting on
/// the treasury. The checks run in a fixed order and the first failure
/// decides the error; a failure mutates nothing. The caller moves
/// `transferred` into the treasury's token account and burns `burned` out of
/// it, signing with the returned treasury seed path.
pub fn process_bury(
    program_id: &Address,
    accounts: &Vec<AccountView>,
    config: &Config,
    treasury: &mut Treasury,
    amount_requested: u64,
    sender_balance: u64,
) -> (r: Result<BuryPlan, ProtocolError>)
    requires
        config.stake_bps <= DENOMINATOR_BPS,
    ensures
        (match r {
            Ok(plan) => {
                &&& bury_first_failure(*program_id, accounts@, *config) is None
                &&& plan.outcome.transferred == bury_transferred_spec(
                    amount_requested,
                    sender_balance,
                )
                &&& plan.outcome.shared == bury_shared_spec(
                    plan.outcome.transferred,
                    config.stake_bps,
                    old(treasury).total_staked,
                )
                &&& plan.outcome.burned == plan.outcome.transferred - plan.outcome.shared
                &&& plan.outcome.shared + plan.outcome.burned == plan.outcome.transferred
                &&& final(treasury).total_staked == old(treasury).total_staked
                &&& final(treasury).accrual_index == (if old(treasury).total_staked > 0 {
                    sat_add_u128_spec(
                        old(treasury).accrual_index,
                        share_delta_spec(old(treasury).total_staked, plan.outcome.shared),
                    )
                } else {
                    old(treasury).accrual_index
                })
                &&& old(treasury).accrual_index <= final(treasury).accrual_index
                &&& (match treasury_pda_spec(config.mint@, program_id@) {
                    Some(t) => t.0 == accounts@[5].address@ && plan.treasury_seeds.deep_view()
                        =~~= seq![treasury_seed_spec(), config.mint@, seq![t.1]],
                    None => false,
                })
            },
            Err(e) => {
                &&& bury_first_failure(*program_id, accounts@, *config) == Some(e)
                &&& *final(treasury) == *old(treasury)
            },
        }),
{
    if accounts.len() != 9 {
        return Err(ProtocolError::InsufficientAccounts);
    }
    let signer_account = &accounts[0];
    let sender_account = &accounts[1];
    let board_account = &accounts[2];
    let config_account = &accounts[3];
    let mint_account = &accounts[4];
    let treasury_account = &accounts[5];
    let treasury_tokens_account = &accounts[6];
    let token_program_account = &accounts[7];
    let own_program_account = &accounts[8];

    if !signer_account.is_signer {
        return Err(ProtocolError::MissingAuthorization);
    }
    let config_ok = match config_pda(&config.mint, program_id) {
        Some((expected, _bump)) => expected.matches(&config_account.address),
        None => false,
    };
    if !config_ok {
        return Err(ProtocolError::AddressMismatch);
    }
    let sender_ok = match associated_token_address(&signer_account.address, &config.mint) {
        Some((expected, _bump)) => expected.matches(&sender_account.address),
        None => false,
    };
    if !sender_ok {
        return Err(ProtocolError::AddressMismatch);
    }
    let board_ok = match board_pda(&config.mint, program_id) {
        Some((expected, _bump)) => expected.matches(&board_account.address),
        None => false,
    };
    if !board_ok {
        return Err(ProtocolError::AddressMismatch);
    }
    if !mint_account.address.matches(&config.mint) {
        return Err(ProtocolError::AssetMismatch);
    }
    let treasury_bump: u8 = match treasury_pda(&config.mint, program_id) {
        Some((expected, bump)) => {
            if !expected.matches(&treasury_account.address) {
                return Err(ProtocolError::AddressMismatch);
            }
            bump
        },
        None => {
            return Err(ProtocolError::AddressMismatch);
        },
    };
    let treasury_tokens_ok = match associated_token_address(
        &treasury_account.address,
        &config.mint,
    ) {
        Some((expected, _bump)) => expected.matches(&treasury_tokens_account.address),
        None => false,
    };
    if !treasury_tokens_ok {
        return Err(ProtocolError::AddressMismatch);
    }
    let expected_token_program = token_program_id();
    if !token_program_account.address.matches(&expected_token_program) {
        return Err(ProtocolError::IncorrectAuthority);
    }
    if !own_program_account.address.matches(program_id) {
        return Err(ProtocolError::IncorrectAuthority);
    }

    let outcome = bury(treasury, amount_requested, sender_balance, config.stake_bps);
    let mut treasury_seeds: Vec<Vec<u8>> = Vec::new();
    treasury_seeds.push(treasury_seed());
    treasury_seeds.push(config.mint.to_vec());
    let bump_seed: Vec<u8> = vec![treasury_bump];
    proof {
        assert(bump_seed@ =~= seq![treasury_bump]);
    }
    treasury_seeds.push(bump_seed);
    proof {
        assert(treasury_seeds.deep_view() =~~= seq![
            treasury_seed_spec(),
            config.mint@,
            seq![treasury_bump],
        ]);
    }
    Ok(BuryPlan { outcome, treasury_seeds })
}

} // verus!
