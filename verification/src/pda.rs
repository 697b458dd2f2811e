//! Deterministic account addressing: every entity's address is derived from a
//! protocol tag and its defining seeds, and a vault's address additionally
//! binds the full content of its schedule through a fixed-field-order,
//! fixed-width hash input, so that two different schedules can never present
//! the same hash input.

use crate::addr::{concat_bytes, hashv_digest, pda_of, sha256_of, try_find_pda, Address};
use crate::codec::{
    i64_to_le_bytes, lemma_i64_le_bytes_round_trip, spec_i64_to_le_bytes,
};
use crate::schedule::VaultSchedule;
use vstd::bytes::{lemma_auto_spec_u64_to_from_le_bytes, spec_u64_to_le_bytes, u64_to_le_bytes};
use vstd::prelude::*;

verus! {

/// The tag bytes `lp_pool`.
pub open spec fn lp_pool_seed_spec() -> Seq<u8> {
    seq![0x6cu8, 0x70u8, 0x5fu8, 0x70u8, 0x6fu8, 0x6fu8, 0x6cu8]
}

/// The tag bytes `vault`.
pub open spec fn vault_seed_spec() -> Seq<u8> {
    seq![0x76u8, 0x61u8, 0x75u8, 0x6cu8, 0x74u8]
}

/// The tag bytes `vault_schedule`.
pub open spec fn vault_schedule_seed_spec() -> Seq<u8> {
    seq![
        0x76u8,
        0x61u8,
        0x75u8,
        0x6cu8,
        0x74u8,
        0x5fu8,
        0x73u8,
        0x63u8,
        0x68u8,
        0x65u8,
        0x64u8,
        0x75u8,
        0x6cu8,
        0x65u8,
    ]
}

/// The tag bytes `config`.
pub open spec fn config_seed_spec() -> Seq<u8> {
    seq![0x63u8, 0x6fu8, 0x6eu8, 0x66u8, 0x69u8, 0x67u8]
}

/// The tag bytes `treasury`.
pub open spec fn treasury_seed_spec() -> Seq<u8> {
    seq![0x74u8, 0x72u8, 0x65u8, 0x61u8, 0x73u8, 0x75u8, 0x72u8, 0x79u8]
}

/// The tag bytes `board`.
pub open spec fn board_seed_spec() -> Seq<u8> {
    seq![0x62u8, 0x6fu8, 0x61u8, 0x72u8, 0x64u8]
}

/// The tag bytes `lp_pool`.
pub fn lp_pool_seed() -> (r: Vec<u8>)
    ensures
        r@ == lp_pool_seed_spec(),
{
    let r: Vec<u8> = vec![0x6c, 0x70, 0x5f, 0x70, 0x6f, 0x6f, 0x6c];
    proof {
        assert(r@ =~= lp_pool_seed_spec());
    }
    r
}

/// The tag bytes `vault`.
pub fn vault_seed() -> (r: Vec<u8>)
    ensures
        r@ == vault_seed_spec(),
{
    let r: Vec<u8> = vec![0x76, 0x61, 0x75, 0x6c, 0x74];
    proof {
        assert(r@ =~= vault_seed_spec());
    }
    r
}

/// The tag bytes `vault_schedule`.
pub fn vault_schedule_seed() -> (r: Vec<u8>)
    ensures
        r@ == vault_schedule_seed_spec(),
{
    let r: Vec<u8> = vec![
        0x76, 0x61, 0x75, 0x6c, 0x74, 0x5f, 0x73, 0x63, 0x68, 0x65, 0x64, 0x75, 0x6c, 0x65,
    ];
    proof {
        assert(r@ =~= vault_schedule_seed_spec());
    }
    r
}

/// The tag bytes `config`.
pub fn config_seed() -> (r: Vec<u8>)
    ensures
        r@ == config_seed_spec(),
{
    let r: Vec<u8> = vec![0x63, 0x6f, 0x6e, 0x66, 0x69, 0x67];
    proof {
        assert(r@ =~= config_seed_spec());
    }
    r
}

/// The tag bytes `treasury`.
pub fn treasury_seed() -> (r: Vec<u8>)
    ensures
        r@ == treasury_seed_spec(),
{
    let r: Vec<u8> = vec![0x74, 0x72, 0x65, 0x61, 0x73, 0x75, 0x72, 0x79];
    proof {
        assert(r@ =~= treasury_seed_spec());
    }
    r
}

/// The tag bytes `board`.
pub fn board_seed() -> (r: Vec<u8>)
    ensures
        r@ == board_seed_spec(),
{
    let r: Vec<u8> = vec![0x62, 0x6f, 0x61, 0x72, 0x64];
    proof {
        assert(r@ =~= board_seed_spec());
    }
    r
}

/// The tag bytes `stake`.
pub open spec fn stake_seed_spec() -> Seq<u8> {
    seq![0x73u8, 0x74u8, 0x61u8, 0x6bu8, 0x65u8]
}

/// The tag bytes `round`.
pub open spec fn round_seed_spec() -> Seq<u8> {
    seq![0x72u8, 0x6fu8, 0x75u8, 0x6eu8, 0x64u8]
}

/// The tag bytes `stake`.
pub fn stake_seed() -> (r: Vec<u8>)
    ensures
        r@ == stake_seed_spec(),
{
    let r: Vec<u8> = vec![0x73, 0x74, 0x61, 0x6b, 0x65];
    proof {
        assert(r@ =~= stake_seed_spec());
    }
    r
}

/// The tag bytes `round`.
pub fn round_seed() -> (r: Vec<u8>)
    ensures
        r@ == round_seed_spec(),
{
    let r: Vec<u8> = vec![0x72, 0x6f, 0x75, 0x6e, 0x64];
    proof {
        assert(r@ =~= round_seed_spec());
    }
    r
}

/// The bytes of the fungible-token program's address.
pub open spec fn token_program_id_spec() -> Seq<u8> {
    seq![
        6u8,
        221u8,
        246u8,
        225u8,
        215u8,
        101u8,
        161u8,
        147u8,
        217u8,
        203u8,
        225u8,
        70u8,
        206u8,
        235u8,
        121u8,
        172u8,
        28u8,
        180u8,
        133u8,
        237u8,
        95u8,
        91u8,
        55u8,
        145u8,
        58u8,
        140u8,
        245u8,
        133u8,
        126u8,
        255u8,
        0u8,
        169u8,
    ]
}

/// The bytes of the associated-token program's address.
pub open spec fn ata_program_id_spec() -> Seq<u8> {
    seq![
        140u8,
        151u8,
        37u8,
        143u8,
        78u8,
        36u8,
        137u8,
        241u8,
        187u8,
        61u8,
        16u8,
        41u8,
        20u8,
        142u8,
        13u8,
        131u8,
        11u8,
        90u8,
        19u8,
        153u8,
        218u8,
        255u8,
        16u8,
        132u8,
        4u8,
        142u8,
        123u8,
        216u8,
        219u8,
        233u8,
        248u8,
        89u8,
    ]
}

/// The fungible-token program's address.
pub fn token_program_id() -> (r: Address)
    ensures
        r@ == token_program_id_spec(),
{
    let r = Address(
        [
            6, 221, 246, 225, 215, 101, 161, 147, 217, 203, 225, 70, 206, 235, 121, 172, 28, 180,
            133, 237, 95, 91, 55, 145, 58, 140, 245, 133, 126, 255, 0, 169,
        ],
    );
    proof {
        assert(r@ =~= token_program_id_spec());
    }
    r
}

/// The associated-token program's address.
pub fn ata_program_id() -> (r: Address)
    ensures
        r@ == ata_program_id_spec(),
{
    let r = Address(
        [
            140, 151, 37, 143, 78, 36, 137, 241, 187, 61, 16, 41, 20, 142, 13, 131, 11, 90, 19,
            153, 218, 255, 16, 132, 4, 142, 123, 216, 219, 233, 248, 89,
        ],
    );
    proof {
        assert(r@ =~= ata_program_id_spec());
    }
    r
}

/// The derived associated-token address for a wallet and mint: the wallet,
/// the fungible-token program, and the mint, derived under the
/// associated-token program.
pub open spec fn associated_token_address_spec(wallet: Seq<u8>, mint: Seq<u8>) -> Option<
    (Seq<u8>, u8),
> {
    pda_of(seq![wallet, token_program_id_spec(), mint], ata_program_id_spec())
}

/// Derives the associated-token address holding a wallet's balance of a mint.
pub fn associated_token_address(wallet: &Address, mint: &Address) -> (r: Option<(Address, u8)>)
    ensures
        (match r {
            Some(p) => associated_token_address_spec(wallet@, mint@) == Some((p.0@, p.1)),
            None => associated_token_address_spec(wallet@, mint@) is None,
        }),
{
    let mut seeds: Vec<Vec<u8>> = Vec::new();
    seeds.push(wallet.to_vec());
    seeds.push(token_program_id().to_vec());
    seeds.push(mint.to_vec());
    let program = ata_program_id();
    proof {
        assert(seeds.deep_view() =~~= seq![wallet@, token_program_id_spec(), mint@]);
    }
    try_find_pda(&seeds, &program)
}

/// The cliff presence flag carried in the schedule hash input.
pub open spec fn cliff_flag_spec(s: VaultSchedule) -> u8 {
    if s.cliff_ts is Some {
        1u8
    } else {
        0u8
    }
}

/// The cliff timestamp carried in the schedule hash input: zero while unset.
pub open spec fn cliff_value_spec(s: VaultSchedule) -> i64 {
    match s.cliff_ts {
        Some(c) => c,
        None => 0,
    }
}

/// The canonical hash input of a schedule: the `vault_schedule` tag followed
/// by every field in fixed order and fixed width (little endian; the cliff as
/// a one-byte flag plus its value, zero while unset).
pub open spec fn schedule_hash_input_spec(s: VaultSchedule) -> Seq<u8> {
    vault_schedule_seed_spec() + (spec_i64_to_le_bytes(s.start_ts) + (seq![cliff_flag_spec(s)]
        + (spec_i64_to_le_bytes(cliff_value_spec(s)) + (spec_i64_to_le_bytes(s.period_seconds)
            + (spec_u64_to_le_bytes(s.release_per_period) + spec_u64_to_le_bytes(
            s.period_count,
        ))))))
}

/// Builds the canonical hash input of a schedule.
pub fn schedule_hash_input(schedule: &VaultSchedule) -> (r: Vec<u8>)
    ensures
        r@ == schedule_hash_input_spec(*schedule),
{
    let cliff_flag: u8 = if schedule.cliff_ts.is_some() {
        1
    } else {
        0
    };
    let cliff_ts: i64 = match schedule.cliff_ts {
        Some(c) => c,
        None => 0,
    };
    let mut out = vault_schedule_seed();
    let mut part = i64_to_le_bytes(schedule.start_ts);
    out.append(&mut part);
    out.push(cliff_flag);
    let mut part = i64_to_le_bytes(cliff_ts);
    out.append(&mut part);
    let mut part = i64_to_le_bytes(schedule.period_seconds);
    out.append(&mut part);
    let mut part = u64_to_le_bytes(schedule.release_per_period);
    out.append(&mut part);
    let mut part = u64_to_le_bytes(schedule.period_count);
    out.append(&mut part);
    proof {
        assert(out@ =~= schedule_hash_input_spec(*schedule));
    }
    out
}

/// The content hash that a vault address binds: the SHA-256 digest of the
/// schedule's canonical hash input.
pub open spec fn vault_schedule_hash_spec(s: VaultSchedule) -> Seq<u8> {
    sha256_of(schedule_hash_input_spec(s))
}

/// Hashes a schedule's canonical hash input.
pub fn vault_schedule_hash(schedule: &VaultSchedule) -> (r: [u8; 32])
    ensures
        r@ == vault_schedule_hash_spec(*schedule),
{
    let input = schedule_hash_input(schedule);
    let ghost input_view = input@;
    let mut parts: Vec<Vec<u8>> = Vec::new();
    parts.push(input);
    proof {
        let dv = parts.deep_view();
        assert(dv.len() == 1);
        assert(dv[0] =~= input_view);
        crate::addr::lemma_concat_bytes_single(dv);
        assert(concat_bytes(dv) == input_view);
    }
    hashv_digest(&parts)
}

/// The derived liquidity-pool address for a base mint under a program id.
pub open spec fn lp_pool_pda_spec(mint: Seq<u8>, program_id: Seq<u8>) -> Option<(Seq<u8>, u8)> {
    pda_of(seq![lp_pool_seed_spec(), mint], program_id)
}

/// Derives the liquidity-pool address for a base mint.
pub fn lp_pool_pda(mint: &Address, program_id: &Address) -> (r: Option<(Address, u8)>)
    ensures
        (match r {
            Some(p) => lp_pool_pda_spec(mint@, program_id@) == Some((p.0@, p.1)),
            None => lp_pool_pda_spec(mint@, program_id@) is None,
        }),
{
    let mut seeds: Vec<Vec<u8>> = Vec::new();
    seeds.push(lp_pool_seed());
    seeds.push(mint.to_vec());
    proof {
        assert(seeds.deep_view() =~~= seq![lp_pool_seed_spec(), mint@]);
    }
    try_find_pda(&seeds, program_id)
}

/// The derived vault address for a beneficiary and schedule under a program
/// id: the `vault` tag, the beneficiary, and the schedule's content hash.
pub open spec fn vault_pda_spec(
    beneficiary: Seq<u8>,
    s: VaultSchedule,
    program_id: Seq<u8>,
) -> Option<(Seq<u8>, u8)> {
    pda_of(seq![vault_seed_spec(), beneficiary, vault_schedule_hash_spec(s)], program_id)
}

/// Derives the vault address for a beneficiary and schedule.
pub fn vault_pda(beneficiary: &Address, schedule: &VaultSchedule, program_id: &Address) -> (r:
    Option<(Address, u8)>)
    ensures
        (match r {
            Some(p) => vault_pda_spec(beneficiary@, *schedule, program_id@) == Some((p.0@, p.1)),
            None => vault_pda_spec(beneficiary@, *schedule, program_id@) is None,
        }),
{
    let schedule_hash = vault_schedule_hash(schedule);
    let mut seeds: Vec<Vec<u8>> = Vec::new();
    seeds.push(vault_seed());
    seeds.push(beneficiary.to_vec());
    seeds.push(crate::addr::bytes32_to_vec(&schedule_hash));
    proof {
        assert(seeds.deep_view() =~~= seq![
            vault_seed_spec(),
            beneficiary@,
            vault_schedule_hash_spec(*schedule),
        ]);
    }
    try_find_pda(&seeds, program_id)
}

/// The derived config address for a mint under a program id.
pub open spec fn config_pda_spec(mint: Seq<u8>, program_id: Seq<u8>) -> Option<(Seq<u8>, u8)> {
    pda_of(seq![config_seed_spec(), mint], program_id)
}

/// Derives the config address for a mint.
pub fn config_pda(mint: &Address, program_id: &Address) -> (r: Option<(Address, u8)>)
    ensures
        (match r {
            Some(p) => config_pda_spec(mint@, program_id@) == Some((p.0@, p.1)),
            None => config_pda_spec(mint@, program_id@) is None,
        }),
{
    let mut seeds: Vec<Vec<u8>> = Vec::new();
    seeds.push(config_seed());
    seeds.push(mint.to_vec());
    proof {
        assert(seeds.deep_view() =~~= seq![config_seed_spec(), mint@]);
    }
    try_find_pda(&seeds, program_id)
}

/// The derived treasury address for a mint under a program id.
pub open spec fn treasury_pda_spec(mint: Seq<u8>, program_id: Seq<u8>) -> Option<(Seq<u8>, u8)> {
    pda_of(seq![treasury_seed_spec(), mint], program_id)
}

/// Derives the treasury address for a mint.
pub fn treasury_pda(mint: &Address, program_id: &Address) -> (r: Option<(Address, u8)>)
    ensures
        (match r {
            Some(p) => treasury_pda_spec(mint@, program_id@) == Some((p.0@, p.1)),
            None => treasury_pda_spec(mint@, program_id@) is None,
        }),
{
    let mut seeds: Vec<Vec<u8>> = Vec::new();
    seeds.push(treasury_seed());
    seeds.push(mint.to_vec());
    proof {
        assert(seeds.deep_view() =~~= seq![treasury_seed_spec(), mint@]);
    }
    try_find_pda(&seeds, program_id)
}

/// The derived board address for a mint under a program id.
pub open spec fn board_pda_spec(mint: Seq<u8>, program_id: Seq<u8>) -> Option<(Seq<u8>, u8)> {
    pda_of(seq![board_seed_spec(), mint], program_id)
}

/// Derives the board address for a mint.
pub fn board_pda(mint: &Address, program_id: &Address) -> (r: Option<(Address, u8)>)
    ensures
        (match r {
            Some(p) => board_pda_spec(mint@, program_id@) == Some((p.0@, p.1)),
            None => board_pda_spec(mint@, program_id@) is None,
        }),
{
    let mut seeds: Vec<Vec<u8>> = Vec::new();
    seeds.push(board_seed());
    seeds.push(mint.to_vec());
    proof {
        assert(seeds.deep_view() =~~= seq![board_seed_spec(), mint@]);
    }
    try_find_pda(&seeds, program_id)
}

/// The derived stake address for a mint and staker authority.
pub open spec fn stake_pda_spec(
    mint: Seq<u8>,
    authority: Seq<u8>,
    program_id: Seq<u8>,
) -> Option<(Seq<u8>, u8)> {
    pda_of(seq![stake_seed_spec(), mint, authority], program_id)
}

/// Derives the stake address for a mint and staker authority.
pub fn stake_pda(mint: &Address, authority: &Address, program_id: &Address) -> (r: Option<
    (Address, u8),
>)
    ensures
        (match r {
            Some(p) => stake_pda_spec(mint@, authority@, program_id@) == Some((p.0@, p.1)),
            None => stake_pda_spec(mint@, authority@, program_id@) is None,
        }),
{
    let mut seeds: Vec<Vec<u8>> = Vec::new();
    seeds.push(stake_seed());
    seeds.push(mint.to_vec());
    seeds.push(authority.to_vec());
    proof {
        assert(seeds.deep_view() =~~= seq![stake_seed_spec(), mint@, authority@]);
    }
    try_find_pda(&seeds, program_id)
}

/// The derived round address for a mint and round number.
pub open spec fn round_pda_spec(mint: Seq<u8>, id: u64, program_id: Seq<u8>) -> Option<
    (Seq<u8>, u8),
> {
    pda_of(seq![round_seed_spec(), mint, vstd::bytes::spec_u64_to_le_bytes(id)], program_id)
}

/// Derives the round address for a mint and round number.
pub fn round_pda(mint: &Address, id: u64, program_id: &Address) -> (r: Option<(Address, u8)>)
    ensures
        (match r {
            Some(p) => round_pda_spec(mint@, id, program_id@) == Some((p.0@, p.1)),
            None => round_pda_spec(mint@, id, program_id@) is None,
        }),
{
    let mut seeds: Vec<Vec<u8>> = Vec::new();
    seeds.push(round_seed());
    seeds.push(mint.to_vec());
    seeds.push(u64_to_le_bytes(id));
    proof {
        assert(seeds.deep_view() =~~= seq![
            round_seed_spec(),
            mint@,
            vstd::bytes::spec_u64_to_le_bytes(id),
        ]);
    }
    try_find_pda(&seeds, program_id)
}

/// Derives the treasury's associated-token address for a mint: the token
/// account the bury flow transfers into and burns out of.
pub fn treasury_tokens_address(mint: &Address, program_id: &Address) -> (r: Option<Address>)
    ensures
        (match treasury_pda_spec(mint@, program_id@) {
            Some(t) => (match r {
                Some(a) => (match associated_token_address_spec(t.0, mint@) {
                    Some(p) => p.0 == a@,
                    None => false,
                }),
                None => associated_token_address_spec(t.0, mint@) is None,
            }),
            None => r is None,
        }),
{
    let treasury = match treasury_pda(mint, program_id) {
        Some(p) => p.0,
        None => {
            return None;
        },
    };
    match associated_token_address(&treasury, mint) {
        Some(p) => Some(p.0),
        None => None,
    }
}

/// The seed path that authorizes sub-operations on the treasury's behalf:
/// the `treasury` tag, the mint, and the derivation's disambiguation byte —
/// exactly the path that derives the treasury's address.
pub fn treasury_signer_seeds(mint: &Address, program_id: &Address) -> (r: Option<Vec<Vec<u8>>>)
    ensures
        (match treasury_pda_spec(mint@, program_id@) {
            Some(t) => (match r {
                Some(seeds) => seeds.deep_view() =~~= seq![
                    treasury_seed_spec(),
                    mint@,
                    seq![t.1],
                ],
                None => false,
            }),
            None => r is None,
        }),
{
    match treasury_pda(mint, program_id) {
        Some((_address, bump)) => {
            let mut seeds: Vec<Vec<u8>> = Vec::new();
            seeds.push(treasury_seed());
            seeds.push(mint.to_vec());
            let bump_seed: Vec<u8> = vec![bump];
            proof {
                assert(bump_seed@ =~= seq![bump]);
            }
            seeds.push(bump_seed);
            proof {
                assert(seeds.deep_view() =~~= seq![treasury_seed_spec(), mint@, seq![bump]]);
            }
            Some(seeds)
        },
        None => None,
    }
}

/// Splitting a concatenation at a known length recovers both halves.
proof fn lemma_concat_parts_equal(a1: Seq<u8>, b1: Seq<u8>, a2: Seq<u8>, b2: Seq<u8>)
    requires
        a1.len() == a2.len(),
        a1 + b1 == a2 + b2,
    ensures
        a1 == a2,
        b1 == b2,
{
    assert((a1 + b1).len() == a1.len() + b1.len());
    assert((a2 + b2).len() == a2.len() + b2.len());
    assert(a1 =~= a2) by {
        assert(forall|i: int|
            0 <= i < a1.len() ==> a1[i] == (a1 + b1)[i] && a2[i] == (a2 + b2)[i]);
    }
    assert(b1.len() == b2.len());
    assert(b1 =~= b2) by {
        assert(forall|i: int|
            0 <= i < b1.len() ==> b1[i] == (a1 + b1)[a1.len() + i] && b2[i] == (a2 + b2)[a2.len()
                + i]);
    }
}

/// Two different schedules never present the same canonical hash input: the
/// fixed-width, fixed-order encoding is injective, so distinct schedule
/// contents always reach the content hash as distinct inputs.
pub proof fn lemma_schedule_hash_input_injective(s1: VaultSchedule, s2: VaultSchedule)
    requires
        schedule_hash_input_spec(s1) == schedule_hash_input_spec(s2),
    ensures
        s1 == s2,
{
    lemma_i64_le_bytes_round_trip();
    lemma_auto_spec_u64_to_from_le_bytes();
    let start1 = spec_i64_to_le_bytes(s1.start_ts);
    let start2 = spec_i64_to_le_bytes(s2.start_ts);
    let rest1a = start1 + (seq![cliff_flag_spec(s1)] + (spec_i64_to_le_bytes(cliff_value_spec(s1))
        + (spec_i64_to_le_bytes(s1.period_seconds) + (spec_u64_to_le_bytes(s1.release_per_period)
            + spec_u64_to_le_bytes(s1.period_count)))));
    let rest2a = start2 + (seq![cliff_flag_spec(s2)] + (spec_i64_to_le_bytes(cliff_value_spec(s2))
        + (spec_i64_to_le_bytes(s2.period_seconds) + (spec_u64_to_le_bytes(s2.release_per_period)
            + spec_u64_to_le_bytes(s2.period_count)))));
    lemma_concat_parts_equal(
        vault_schedule_seed_spec(),
        rest1a,
        vault_schedule_seed_spec(),
        rest2a,
    );
    let rest1b = seq![cliff_flag_spec(s1)] + (spec_i64_to_le_bytes(cliff_value_spec(s1))
        + (spec_i64_to_le_bytes(s1.period_seconds) + (spec_u64_to_le_bytes(s1.release_per_period)
            + spec_u64_to_le_bytes(s1.period_count))));
    let rest2b = seq![cliff_flag_spec(s2)] + (spec_i64_to_le_bytes(cliff_value_spec(s2))
        + (spec_i64_to_le_bytes(s2.period_seconds) + (spec_u64_to_le_bytes(s2.release_per_period)
            + spec_u64_to_le_bytes(s2.period_count))));
    lemma_concat_parts_equal(start1, rest1b, start2, rest2b);
    assert(s1.start_ts == s2.start_ts);
    let rest1c = spec_i64_to_le_bytes(cliff_value_spec(s1)) + (spec_i64_to_le_bytes(
        s1.period_seconds,
    ) + (spec_u64_to_le_bytes(s1.release_per_period) + spec_u64_to_le_bytes(s1.period_count)));
    let rest2c = spec_i64_to_le_bytes(cliff_value_spec(s2)) + (spec_i64_to_le_bytes(
        s2.period_seconds,
    ) + (spec_u64_to_le_bytes(s2.release_per_period) + spec_u64_to_le_bytes(s2.period_count)));
    lemma_concat_parts_equal(seq![cliff_flag_spec(s1)], rest1c, seq![cliff_flag_spec(s2)], rest2c);
    assert(cliff_flag_spec(s1) == cliff_flag_spec(s2)) by {
        assert(seq![cliff_flag_spec(s1)][0] == seq![cliff_flag_spec(s2)][0]);
    }
    let rest1d = spec_i64_to_le_bytes(s1.period_seconds) + (spec_u64_to_le_bytes(
        s1.release_per_period,
    ) + spec_u64_to_le_bytes(s1.period_count));
    let rest2d = spec_i64_to_le_bytes(s2.period_seconds) + (spec_u64_to_le_bytes(
        s2.release_per_period,
    ) + spec_u64_to_le_bytes(s2.period_count));
    lemma_concat_parts_equal(
        spec_i64_to_le_bytes(cliff_value_spec(s1)),
        rest1d,
        spec_i64_to_le_bytes(cliff_value_spec(s2)),
        rest2d,
    );
    assert(cliff_value_spec(s1) == cliff_value_spec(s2));
    assert(s1.cliff_ts == s2.cliff_ts);
    lemma_concat_parts_equal(
        spec_i64_to_le_bytes(s1.period_seconds),
        spec_u64_to_le_bytes(s1.release_per_period) + spec_u64_to_le_bytes(s1.period_count),
        spec_i64_to_le_bytes(s2.period_seconds),
        spec_u64_to_le_bytes(s2.release_per_period) + spec_u64_to_le_bytes(s2.period_count),
    );
    assert(s1.period_seconds == s2.period_seconds);
    lemma_concat_parts_equal(
        spec_u64_to_le_bytes(s1.release_per_period),
        spec_u64_to_le_bytes(s1.period_count),
        spec_u64_to_le_bytes(s2.release_per_period),
        spec_u64_to_le_bytes(s2.period_count),
    );
    crate::codec::lemma_u64_le_bytes_injective();
    assert(s1.release_per_period == s2.release_per_period);
    assert(s1.period_count == s2.period_count);
}

/// Two schedules that differ in any field present different canonical hash
/// inputs to the vault's content hash.
pub proof fn lemma_vault_content_binding(s1: VaultSchedule, s2: VaultSchedule)
    requires
        s1 != s2,
    ensures
        schedule_hash_input_spec(s1) != schedule_hash_input_spec(s2),
{
    if schedule_hash_input_spec(s1) == schedule_hash_input_spec(s2) {
        lemma_schedule_hash_input_injective(s1, s2);
    }
}

} // verus!
