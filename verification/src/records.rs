//! Fixed-layout encodings of the deployment's state records — config,
//! treasury, and liquidity pool — and of the bury instruction payload. Every
//! record is fixed-size and position-independent, so an external indexer can
//! parse it directly from raw account bytes, and decoding an encoded record
//! restores it exactly.

use crate::accrual::Treasury;
use crate::addr::{read_bytes32, read_bytes_array, Address};
use crate::lifecycle::LpPool;
use crate::ops::Config;
use vstd::bytes::{
    lemma_auto_spec_u128_to_from_le_bytes, lemma_auto_spec_u64_to_from_le_bytes,
    spec_u128_from_le_bytes, spec_u128_to_le_bytes, spec_u64_from_le_bytes, spec_u64_to_le_bytes,
    u128_from_le_bytes, u128_to_le_bytes, u64_from_le_bytes, u64_to_le_bytes,
};
use vstd::prelude::*;
use vstd::slice::slice_subrange;

verus! {

/// The instruction tag for burying value.
pub const BURY_TAG: u8 = 1;

/// The encoding of a bury instruction: the tag, then the requested amount.
pub open spec fn spec_encode_bury_ix(amount: u64) -> Seq<u8> {
    seq![BURY_TAG] + spec_u64_to_le_bytes(amount)
}

/// The requested amount a bury payload carries, when `d` carries the tag and
/// exactly the amount.
pub open spec fn spec_decode_bury_ix(d: Seq<u8>) -> Option<u64> {
    if d.len() == 9 && d[0] == BURY_TAG {
        Some(spec_u64_from_le_bytes(d.subrange(1, 9)))
    } else {
        None
    }
}

/// Encodes a bury instruction payload.
pub fn encode_bury_ix(amount: u64) -> (r: Vec<u8>)
    ensures
        r@ == spec_encode_bury_ix(amount),
{
    let mut out: Vec<u8> = Vec::new();
    out.push(BURY_TAG);
    let mut part = u64_to_le_bytes(amount);
    out.append(&mut part);
    proof {
        assert(out@ =~= spec_encode_bury_ix(amount));
    }
    out
}

/// Decodes a bury instruction payload.
pub fn decode_bury_ix(data: &[u8]) -> (r: Option<u64>)
    ensures
        (match r {
            Some(amount) => spec_decode_bury_ix(data@) == Some(amount),
            None => spec_decode_bury_ix(data@) is None,
        }),
{
    if data.len() != 9 {
        return None;
    }
    let tag = *vstd::slice::slice_index_get(data, 0);
    if tag != BURY_TAG {
        return None;
    }
    Some(u64_from_le_bytes(slice_subrange(data, 1, 9)))
}

/// Decoding an encoded bury payload restores the amount.
pub proof fn lemma_bury_ix_round_trip(amount: u64)
    ensures
        spec_decode_bury_ix(spec_encode_bury_ix(amount)) == Some(amount),
{
    lemma_auto_spec_u64_to_from_le_bytes();
    let d = spec_encode_bury_ix(amount);
    assert(d.subrange(1, 9) =~= spec_u64_to_le_bytes(amount));
}

/// The encoding of a config record: every field in declaration order, fixed
/// width, 120 bytes in all.
pub open spec fn spec_encode_config(c: Config) -> Seq<u8> {
    c.admin@ + c.mint@ + spec_u64_to_le_bytes(c.reward_per_round) + spec_u64_to_le_bytes(
        c.max_supply,
    ) + spec_u64_to_le_bytes(c.motherlode_bps) + spec_u64_to_le_bytes(c.stake_bps) + c.reserved@
}

/// The fields of the config record encoded by `d`, which must be consumed
/// exactly: admin, mint, the four amounts, and the reserved bytes.
pub open spec fn spec_decode_config(d: Seq<u8>) -> Option<
    (Seq<u8>, Seq<u8>, u64, u64, u64, u64, Seq<u8>),
> {
    if d.len() != 120 {
        None
    } else {
        Some(
            (
                d.subrange(0, 32),
                d.subrange(32, 64),
                spec_u64_from_le_bytes(d.subrange(64, 72)),
                spec_u64_from_le_bytes(d.subrange(72, 80)),
                spec_u64_from_le_bytes(d.subrange(80, 88)),
                spec_u64_from_le_bytes(d.subrange(88, 96)),
                d.subrange(96, 120),
            ),
        )
    }
}

/// Encodes a config record for storage at its derived address.
pub fn encode_config(c: &Config) -> (r: Vec<u8>)
    ensures
        r@ == spec_encode_config(*c),
{
    let mut out = c.admin.to_vec();
    let mut part = c.mint.to_vec();
    out.append(&mut part);
    let mut part = u64_to_le_bytes(c.reward_per_round);
    out.append(&mut part);
    let mut part = u64_to_le_bytes(c.max_supply);
    out.append(&mut part);
    let mut part = u64_to_le_bytes(c.motherlode_bps);
    out.append(&mut part);
    let mut part = u64_to_le_bytes(c.stake_bps);
    out.append(&mut part);
    out.extend_from_slice(c.reserved.as_slice());
    proof {
        assert(out@ =~= spec_encode_config(*c));
    }
    out
}

/// Decodes a stored config record.
pub fn decode_config(data: &[u8]) -> (r: Option<Config>)
    ensures
        (match r {
            Some(c) => spec_decode_config(data@) == Some(
                (
                    c.admin@,
                    c.mint@,
                    c.reward_per_round,
                    c.max_supply,
                    c.motherlode_bps,
                    c.stake_bps,
                    c.reserved@,
                ),
            ),
            None => spec_decode_config(data@) is None,
        }),
{
    if data.len() != 120 {
        return None;
    }
    let admin = Address(read_bytes32(data, 0));
    let mint = Address(read_bytes32(data, 32));
    let reward_per_round = u64_from_le_bytes(slice_subrange(data, 64, 72));
    let max_supply = u64_from_le_bytes(slice_subrange(data, 72, 80));
    let motherlode_bps = u64_from_le_bytes(slice_subrange(data, 80, 88));
    let stake_bps = u64_from_le_bytes(slice_subrange(data, 88, 96));
    let reserved: [u8; 24] = read_bytes_array(data, 96);
    Some(
        Config {
            admin,
            mint,
            reward_per_round,
            max_supply,
            motherlode_bps,
            stake_bps,
            reserved,
        },
    )
}

/// Decoding an encoded config record restores every field.
pub proof fn lemma_config_round_trip(c: Config)
    ensures
        spec_decode_config(spec_encode_config(c)) == Some(
            (
                c.admin@,
                c.mint@,
                c.reward_per_round,
                c.max_supply,
                c.motherlode_bps,
                c.stake_bps,
                c.reserved@,
            ),
        ),
{
    lemma_auto_spec_u64_to_from_le_bytes();
    let d = spec_encode_config(c);
    assert(d.len() == 120);
    assert(d.subrange(0, 32) =~= c.admin@);
    assert(d.subrange(32, 64) =~= c.mint@);
    assert(d.subrange(64, 72) =~= spec_u64_to_le_bytes(c.reward_per_round));
    assert(d.subrange(72, 80) =~= spec_u64_to_le_bytes(c.max_supply));
    assert(d.subrange(80, 88) =~= spec_u64_to_le_bytes(c.motherlode_bps));
    assert(d.subrange(88, 96) =~= spec_u64_to_le_bytes(c.stake_bps));
    assert(d.subrange(96, 120) =~= c.reserved@);
}

/// The encoding of a treasury record: the stake total, then the accrual
/// index, 24 bytes in all.
pub open spec fn spec_encode_treasury(t: Treasury) -> Seq<u8> {
    spec_u64_to_le_bytes(t.total_staked) + spec_u128_to_le_bytes(t.accrual_index)
}

/// The treasury record encoded by `d`, which must be consumed exactly.
pub open spec fn spec_decode_treasury(d: Seq<u8>) -> Option<Treasury> {
    if d.len() != 24 {
        None
    } else {
        Some(
            Treasury {
                total_staked: spec_u64_from_le_bytes(d.subrange(0, 8)),
                accrual_index: spec_u128_from_le_bytes(d.subrange(8, 24)),
            },
        )
    }
}

/// Encodes a treasury record for storage at its derived address.
pub fn encode_treasury(t: &Treasury) -> (r: Vec<u8>)
    ensures
        r@ == spec_encode_treasury(*t),
{
    let mut out = u64_to_le_bytes(t.total_staked);
    let mut part = u128_to_le_bytes(t.accrual_index);
    out.append(&mut part);
    proof {
        assert(out@ =~= spec_encode_treasury(*t));
    }
    out
}

/// Decodes a stored treasury record.
pub fn decode_treasury(data: &[u8]) -> (r: Option<Treasury>)
    ensures
        (match r {
            Some(t) => spec_decode_treasury(data@) == Some(t),
            None => spec_decode_treasury(data@) is None,
        }),
{
    if data.len() != 24 {
        return None;
    }
    let total_staked = u64_from_le_bytes(slice_subrange(data, 0, 8));
    let accrual_index = u128_from_le_bytes(slice_subrange(data, 8, 24));
    Some(Treasury { total_staked, accrual_index })
}

/// Decoding an encoded treasury record restores it.
pub proof fn lemma_treasury_round_trip(t: Treasury)
    ensures
        spec_decode_treasury(spec_encode_treasury(t)) == Some(t),
{
    lemma_auto_spec_u64_to_from_le_bytes();
    lemma_auto_spec_u128_to_from_le_bytes();
    let d = spec_encode_treasury(t);
    assert(d.len() == 24);
    assert(d.subrange(0, 8) =~= spec_u64_to_le_bytes(t.total_staked));
    assert(d.subrange(8, 24) =~= spec_u128_to_le_bytes(t.accrual_index));
}

/// The encoding of a pool record: both mints, the authority, the bump, and
/// the reserved bytes, 104 bytes in all.
pub open spec fn spec_encode_lp_pool(p: LpPool) -> Seq<u8> {
    p.base_mint@ + p.quote_mint@ + p.authority@ + seq![p.bump] + p.reserved@
}

/// The fields of the pool record encoded by `d`, which must be consumed
/// exactly: base mint, quote mint, authority, bump, reserved bytes.
pub open spec fn spec_decode_lp_pool(d: Seq<u8>) -> Option<
    (Seq<u8>, Seq<u8>, Seq<u8>, u8, Seq<u8>),
> {
    if d.len() != 104 {
        None
    } else {
        Some(
            (
                d.subrange(0, 32),
                d.subrange(32, 64),
                d.subrange(64, 96),
                d[96],
                d.subrange(97, 104),
            ),
        )
    }
}

/// Encodes a pool record for storage at its derived address.
pub fn encode_lp_pool(p: &LpPool) -> (r: Vec<u8>)
    ensures
        r@ == spec_encode_lp_pool(*p),
{
    let mut out = p.base_mint.to_vec();
    let mut part = p.quote_mint.to_vec();
    out.append(&mut part);
    let mut part = p.authority.to_vec();
    out.append(&mut part);
    out.push(p.bump);
    out.extend_from_slice(p.reserved.as_slice());
    proof {
        assert(out@ =~= spec_encode_lp_pool(*p));
    }
    out
}

/// Decodes a stored pool record.
pub fn decode_lp_pool(data: &[u8]) -> (r: Option<LpPool>)
    ensures
        (match r {
            Some(p) => spec_decode_lp_pool(data@) == Some(
                (p.base_mint@, p.quote_mint@, p.authority@, p.bump, p.reserved@),
            ),
            None => spec_decode_lp_pool(data@) is None,
        }),
{
    if data.len() != 104 {
        return None;
    }
    let base_mint = Address(read_bytes32(data, 0));
    let quote_mint = Address(read_bytes32(data, 32));
    let authority = Address(read_bytes32(data, 64));
    let bump = *vstd::slice::slice_index_get(data, 96);
    let reserved: [u8; 7] = read_bytes_array(data, 97);
    Some(LpPool { base_mint, quote_mint, authority, bump, reserved })
}

/// Decoding an encoded pool record restores every field.
pub proof fn lemma_lp_pool_round_trip(p: LpPool)
    ensures
        spec_decode_lp_pool(spec_encode_lp_pool(p)) == Some(
            (p.base_mint@, p.quote_mint@, p.authority@, p.bump, p.reserved@),
        ),
{
    let d = spec_encode_lp_pool(p);
    assert(d.len() == 104);
    assert(d.subrange(0, 32) =~= p.base_mint@);
    assert(d.subrange(32, 64) =~= p.quote_mint@);
    assert(d.subrange(64, 96) =~= p.authority@);
    assert(d[96] == p.bump);
    assert(d.subrange(97, 104) =~= p.reserved@);
}

} // verus!
