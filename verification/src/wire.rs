//! The fixed binary layout of persisted records and instruction payloads:
//! little-endian fixed-width integers, a one-byte flag for optional fields,
//! and a one-byte tag for instruction kinds. Every record is
//! position-independent, so an external indexer can parse it from raw account
//! bytes, and decoding an encoded value restores it exactly.

use crate::addr::{read_bytes32, Address};
use crate::codec::{
    i64_from_le_bytes, i64_to_le_bytes, lemma_i64_le_bytes_round_trip, spec_i64_from_le_bytes,
    spec_i64_to_le_bytes,
};
use crate::schedule::VaultSchedule;
use vstd::bytes::{
    lemma_auto_spec_u64_to_from_le_bytes, spec_u64_from_le_bytes, spec_u64_to_le_bytes,
    u64_from_le_bytes, u64_to_le_bytes,
};
use vstd::prelude::*;
use vstd::slice::slice_subrange;

verus! {

/// The instruction tag for creating a vesting vault.
pub const INITIALIZE_VAULT_TAG: u8 = 0;

/// On-chain vault account data: the beneficiary, the schedule whose hash the
/// vault's address binds, and the derivation's disambiguation byte.
#[derive(Debug, Clone, Copy, PartialEq, Eq)]
pub struct VaultState {
    pub beneficiary: Address,
    pub schedule: VaultSchedule,
    pub bump: u8,
}

/// Operations of the reward-locking program.
#[derive(Debug, Clone, Copy, PartialEq, Eq)]
pub enum RewardsLockInstruction {
    InitializeVault { beneficiary: Address, schedule: VaultSchedule },
}

/// The encoding of an optional cliff: a presence flag, then the value only
/// when present.
pub open spec fn spec_encode_cliff(cliff_ts: Option<i64>) -> Seq<u8> {
    match cliff_ts {
        Some(c) => seq![1u8] + spec_i64_to_le_bytes(c),
        None => seq![0u8],
    }
}

/// The encoding of a schedule: every field in declaration order.
pub open spec fn spec_encode_schedule(s: VaultSchedule) -> Seq<u8> {
    spec_i64_to_le_bytes(s.start_ts) + spec_encode_cliff(s.cliff_ts) + spec_i64_to_le_bytes(
        s.period_seconds,
    ) + spec_u64_to_le_bytes(s.release_per_period) + spec_u64_to_le_bytes(s.period_count)
}

/// The encoding of a vault record: beneficiary, schedule, bump.
pub open spec fn spec_encode_vault_state(
    beneficiary: Seq<u8>,
    s: VaultSchedule,
    bump: u8,
) -> Seq<u8> {
    beneficiary + spec_encode_schedule(s) + seq![bump]
}

/// The encoding of a vault-initialization instruction: the tag, the
/// beneficiary, the schedule.
pub open spec fn spec_encode_init_vault(beneficiary: Seq<u8>, s: VaultSchedule) -> Seq<u8> {
    seq![INITIALIZE_VAULT_TAG] + beneficiary + spec_encode_schedule(s)
}

/// Encodes a schedule.
pub fn encode_schedule(s: &VaultSchedule) -> (r: Vec<u8>)
    ensures
        r@ == spec_encode_schedule(*s),
{
    let mut out = i64_to_le_bytes(s.start_ts);
    match s.cliff_ts {
        Some(c) => {
            out.push(1);
            let mut part = i64_to_le_bytes(c);
            out.append(&mut part);
        },
        None => {
            out.push(0);
        },
    }
    let mut part = i64_to_le_bytes(s.period_seconds);
    out.append(&mut part);
    let mut part = u64_to_le_bytes(s.release_per_period);
    out.append(&mut part);
    let mut part = u64_to_le_bytes(s.period_count);
    out.append(&mut part);
    proof {
        assert(out@ =~= spec_encode_schedule(*s));
    }
    out
}

impl VaultState {
    /// Encodes this record for storage at its derived address.
    pub fn to_bytes(&self) -> (r: Vec<u8>)
        ensures
            r@ == spec_encode_vault_state(self.beneficiary@, self.schedule, self.bump),
    {
        let mut out = self.beneficiary.to_vec();
        let mut part = encode_schedule(&self.schedule);
        out.append(&mut part);
        out.push(self.bump);
        proof {
            assert(out@ =~= spec_encode_vault_state(self.beneficiary@, self.schedule, self.bump));
        }
        out
    }
}

impl RewardsLockInstruction {
    /// Encodes this instruction as its argument payload.
    pub fn to_bytes(&self) -> (r: Vec<u8>)
        ensures
            (match *self {
                RewardsLockInstruction::InitializeVault { beneficiary, schedule } => r@
                    == spec_encode_init_vault(beneficiary@, schedule),
            }),
    {
        match self {
            RewardsLockInstruction::InitializeVault { beneficiary, schedule } => {
                let mut out: Vec<u8> = Vec::new();
                out.push(INITIALIZE_VAULT_TAG);
                let mut part = beneficiary.to_vec();
                out.append(&mut part);
                let mut part = encode_schedule(schedule);
                out.append(&mut part);
                proof {
                    assert(out@ =~= spec_encode_init_vault(beneficiary@, *schedule));
                }
                out
            },
        }
    }
}

/// The instruction tag for creating a liquidity pool record.
pub const INITIALIZE_LP_POOL_TAG: u8 = 0;

/// The argument payload that creates a liquidity pool record.
#[derive(Debug, Clone, Copy, PartialEq, Eq)]
pub struct InitializeLpPool {
    pub base_mint: Address,
    pub quote_mint: Address,
}

/// The encoding of a pool-initialization instruction: the tag, then both
/// mints.
pub open spec fn spec_encode_init_lp_pool(base_mint: Seq<u8>, quote_mint: Seq<u8>) -> Seq<u8> {
    seq![INITIALIZE_LP_POOL_TAG] + base_mint + quote_mint
}

/// The pool-initialization payload encoded by `d`: both mints, when `d`
/// carries the tag and exactly the two mints.
pub open spec fn spec_decode_init_lp_pool(d: Seq<u8>) -> Option<(Seq<u8>, Seq<u8>)> {
    if d.len() == 65 && d[0] == INITIALIZE_LP_POOL_TAG {
        Some((d.subrange(1, 33), d.subrange(33, 65)))
    } else {
        None
    }
}

impl InitializeLpPool {
    /// A pool-initialization payload for the two mints.
    pub fn new(base_mint: Address, quote_mint: Address) -> (r: InitializeLpPool)
        ensures
            r.base_mint == base_mint,
            r.quote_mint == quote_mint,
    {
        InitializeLpPool { base_mint, quote_mint }
    }

    /// Encodes this payload.
    pub fn to_bytes(&self) -> (r: Vec<u8>)
        ensures
            r@ == spec_encode_init_lp_pool(self.base_mint@, self.quote_mint@),
    {
        let mut out: Vec<u8> = Vec::new();
        out.push(INITIALIZE_LP_POOL_TAG);
        let mut part = self.base_mint.to_vec();
        out.append(&mut part);
        let mut part = self.quote_mint.to_vec();
        out.append(&mut part);
        proof {
            assert(out@ =~= spec_encode_init_lp_pool(self.base_mint@, self.quote_mint@));
        }
        out
    }
}

/// Decodes a pool-initialization payload.
pub fn decode_init_lp_pool(data: &[u8]) -> (r: Option<InitializeLpPool>)
    ensures
        (match r {
            Some(ix) => spec_decode_init_lp_pool(data@) == Some((ix.base_mint@, ix.quote_mint@)),
            None => spec_decode_init_lp_pool(data@) is None,
        }),
{
    if data.len() != 65 {
        return None;
    }
    let tag = *vstd::slice::slice_index_get(data, 0);
    if tag != INITIALIZE_LP_POOL_TAG {
        return None;
    }
    let base_mint = Address(read_bytes32(data, 1));
    let quote_mint = Address(read_bytes32(data, 33));
    Some(InitializeLpPool { base_mint, quote_mint })
}

/// Decoding an encoded pool-initialization payload restores both mints.
pub proof fn lemma_init_lp_pool_round_trip(base_mint: Seq<u8>, quote_mint: Seq<u8>)
    requires
        base_mint.len() == 32,
        quote_mint.len() == 32,
    ensures
        spec_decode_init_lp_pool(spec_encode_init_lp_pool(base_mint, quote_mint)) == Some(
            (base_mint, quote_mint),
        ),
{
    let d = spec_encode_init_lp_pool(base_mint, quote_mint);
    assert(d.len() == 65);
    assert(d.subrange(1, 33) =~= base_mint);
    assert(d.subrange(33, 65) =~= quote_mint);
}

/// The schedule starting at `off` in `d`, with the offset just past it, or
/// `None` when the bytes there are no schedule encoding.
pub open spec fn spec_decode_schedule_at(d: Seq<u8>, off: int) -> Option<(VaultSchedule, int)> {
    if d.len() < off + 9 {
        None
    } else {
        let start_ts = spec_i64_from_le_bytes(d.subrange(off, off + 8));
        let flag = d[off + 8];
        if flag == 1 {
            if d.len() < off + 41 {
                None
            } else {
                Some(
                    (
                        VaultSchedule {
                            start_ts,
                            cliff_ts: Some(spec_i64_from_le_bytes(d.subrange(off + 9, off + 17))),
                            period_seconds: spec_i64_from_le_bytes(d.subrange(off + 17, off + 25)),
                            release_per_period: spec_u64_from_le_bytes(
                                d.subrange(off + 25, off + 33),
                            ),
                            period_count: spec_u64_from_le_bytes(d.subrange(off + 33, off + 41)),
                        },
                        off + 41,
                    ),
                )
            }
        } else if flag == 0 {
            if d.len() < off + 33 {
                None
            } else {
                Some(
                    (
                        VaultSchedule {
                            start_ts,
                            cliff_ts: None,
                            period_seconds: spec_i64_from_le_bytes(d.subrange(off + 9, off + 17)),
                            release_per_period: spec_u64_from_le_bytes(
                                d.subrange(off + 17, off + 25),
                            ),
                            period_count: spec_u64_from_le_bytes(d.subrange(off + 25, off + 33)),
                        },
                        off + 33,
                    ),
                )
            }
        } else {
            None
        }
    }
}

/// The vault record encoded by `d`, which must be consumed exactly.
pub open spec fn spec_decode_vault_state(d: Seq<u8>) -> Option<(Seq<u8>, VaultSchedule, u8)> {
    if d.len() < 32 {
        None
    } else {
        match spec_decode_schedule_at(d, 32) {
            None => None,
            Some((s, off)) => if d.len() == off + 1 {
                Some((d.subrange(0, 32), s, d[off]))
            } else {
                None
            },
        }
    }
}

/// The vault-initialization instruction encoded by `d`, which must carry the
/// tag and be consumed exactly.
pub open spec fn spec_decode_init_vault(d: Seq<u8>) -> Option<(Seq<u8>, VaultSchedule)> {
    if d.len() < 33 || d[0] != INITIALIZE_VAULT_TAG {
        None
    } else {
        match spec_decode_schedule_at(d, 33) {
            None => None,
            Some((s, off)) => if d.len() == off {
                Some((d.subrange(1, 33), s))
            } else {
                None
            },
        }
    }
}

/// Decodes a schedule starting at `off`.
pub fn decode_schedule_at(data: &[u8], off: usize) -> (r: Option<(VaultSchedule, usize)>)
    requires
        off <= data@.len(),
    ensures
        (match r {
            Some(p) => spec_decode_schedule_at(data@, off as int) == Some((p.0, p.1 as int)),
            None => spec_decode_schedule_at(data@, off as int) is None,
        }),
{
    if data.len() - off < 9 {
        return None;
    }
    let start_ts = i64_from_le_bytes(slice_subrange(data, off, off + 8));
    let flag = *vstd::slice::slice_index_get(data, off + 8);
    if flag == 1 {
        if data.len() - off < 41 {
            return None;
        }
        let cliff = i64_from_le_bytes(slice_subrange(data, off + 9, off + 17));
        let period_seconds = i64_from_le_bytes(slice_subrange(data, off + 17, off + 25));
        let release_per_period = u64_from_le_bytes(slice_subrange(data, off + 25, off + 33));
        let period_count = u64_from_le_bytes(slice_subrange(data, off + 33, off + 41));
        Some(
            (
                VaultSchedule {
                    start_ts,
                    cliff_ts: Some(cliff),
                    period_seconds,
                    release_per_period,
                    period_count,
                },
                off + 41,
            ),
        )
    } else if flag == 0 {
        if data.len() - off < 33 {
            return None;
        }
        let period_seconds = i64_from_le_bytes(slice_subrange(data, off + 9, off + 17));
        let release_per_period = u64_from_le_bytes(slice_subrange(data, off + 17, off + 25));
        let period_count = u64_from_le_bytes(slice_subrange(data, off + 25, off + 33));
        Some(
            (
                VaultSchedule {
                    start_ts,
                    cliff_ts: None,
                    period_seconds,
                    release_per_period,
                    period_count,
                },
                off + 33,
            ),
        )
    } else {
        None
    }
}

/// Decodes a stored vault record.
pub fn decode_vault_state(data: &[u8]) -> (r: Option<VaultState>)
    ensures
        (match r {
            Some(vs) => spec_decode_vault_state(data@) == Some(
                (vs.beneficiary@, vs.schedule, vs.bump),
            ),
            None => spec_decode_vault_state(data@) is None,
        }),
{
    if data.len() < 32 {
        return None;
    }
    let beneficiary = Address(read_bytes32(data, 0));
    match decode_schedule_at(data, 32) {
        None => None,
        Some((schedule, off)) => {
            if data.len() == off + 1 {
                let bump = *vstd::slice::slice_index_get(data, off);
                Some(VaultState { beneficiary, schedule, bump })
            } else {
                None
            }
        },
    }
}

/// Decodes a vault-initialization instruction payload.
pub fn decode_init_vault(data: &[u8]) -> (r: Option<RewardsLockInstruction>)
    ensures
        (match r {
            Some(ix) => (match ix {
                RewardsLockInstruction::InitializeVault { beneficiary, schedule } =>
                    spec_decode_init_vault(data@) == Some((beneficiary@, schedule)),
            }),
            None => spec_decode_init_vault(data@) is None,
        }),
{
    if data.len() < 33 {
        return None;
    }
    let tag = *vstd::slice::slice_index_get(data, 0);
    if tag != INITIALIZE_VAULT_TAG {
        return None;
    }
    let beneficiary = Address(read_bytes32(data, 1));
    match decode_schedule_at(data, 33) {
        None => None,
        Some((schedule, off)) => {
            if data.len() == off {
                Some(RewardsLockInstruction::InitializeVault { beneficiary, schedule })
            } else {
                None
            }
        },
    }
}

/// The length of a schedule encoding, by cliff presence.
pub proof fn lemma_encode_schedule_len(s: VaultSchedule)
    ensures
        spec_encode_schedule(s).len() == (if s.cliff_ts is Some {
            41int
        } else {
            33int
        }),
{
    lemma_i64_le_bytes_round_trip();
    lemma_auto_spec_u64_to_from_le_bytes();
    assert(spec_i64_to_le_bytes(s.start_ts).len() == 8);
    assert(spec_i64_to_le_bytes(s.period_seconds).len() == 8);
    assert(spec_u64_to_le_bytes(s.release_per_period).len() == 8);
    assert(spec_u64_to_le_bytes(s.period_count).len() == 8);
    match s.cliff_ts {
        Some(c) => {
            assert(spec_i64_to_le_bytes(c).len() == 8);
        },
        None => {},
    }
}

/// A schedule encoding embedded at `off` decodes back to the schedule and
/// ends exactly at the encoding's end.
pub proof fn lemma_decode_schedule_at(d: Seq<u8>, off: int, s: VaultSchedule)
    requires
        0 <= off,
        off + spec_encode_schedule(s).len() <= d.len(),
        d.subrange(off, off + spec_encode_schedule(s).len()) == spec_encode_schedule(s),
    ensures
        spec_decode_schedule_at(d, off) == Some((s, off + spec_encode_schedule(s).len())),
{
    lemma_i64_le_bytes_round_trip();
    lemma_auto_spec_u64_to_from_le_bytes();
    let enc = spec_encode_schedule(s);
    assert(spec_i64_to_le_bytes(s.start_ts).len() == 8);
    assert(spec_i64_to_le_bytes(s.period_seconds).len() == 8);
    assert(spec_u64_to_le_bytes(s.release_per_period).len() == 8);
    assert(spec_u64_to_le_bytes(s.period_count).len() == 8);
    assert forall|i: int| 0 <= i < enc.len() implies d[off + i] == enc[i] by {
        assert(d.subrange(off, off + enc.len() as int)[i] == d[off + i]);
    }
    match s.cliff_ts {
        Some(c) => {
            assert(spec_i64_to_le_bytes(c).len() == 8);
            assert(spec_encode_cliff(s.cliff_ts).len() == 9);
            assert(enc.len() == 41);
            assert(d.subrange(off, off + 8) =~= spec_i64_to_le_bytes(s.start_ts)) by {
                assert(forall|k: int| #![trigger d.subrange(off, off + 8)[k]] 0 <= k < 8 ==> d.subrange(off, off + 8)[k] == d[off + k]);
                assert(forall|k: int| #![trigger spec_i64_to_le_bytes(s.start_ts)[k]] 0 <= k < 8 ==> enc[k] == spec_i64_to_le_bytes(s.start_ts)[k]);
            }
            assert(enc[8] == 1);
            assert(d[off + 8] == 1);
            assert(d.subrange(off + 9, off + 17) =~= spec_i64_to_le_bytes(c)) by {
                assert(forall|k: int| #![trigger d.subrange(off + 9, off + 17)[k]] 0 <= k < 8 ==> d.subrange(off + 9, off + 17)[k] == d[off + 9 + k]);
                assert(forall|k: int| #![trigger spec_i64_to_le_bytes(c)[k]] 0 <= k < 8 ==> enc[9 + k] == spec_i64_to_le_bytes(c)[k]);
            }
            assert(d.subrange(off + 17, off + 25) =~= spec_i64_to_le_bytes(s.period_seconds)) by {
                assert(forall|k: int| #![trigger d.subrange(off + 17, off + 25)[k]] 0 <= k < 8 ==> d.subrange(off + 17, off + 25)[k] == d[off + 17 + k]);
                assert(forall|k: int| #![trigger spec_i64_to_le_bytes(s.period_seconds)[k]] 0 <= k < 8 ==> enc[17 + k] == spec_i64_to_le_bytes(s.period_seconds)[k]);
            }
            assert(d.subrange(off + 25, off + 33) =~= spec_u64_to_le_bytes(s.release_per_period))
                by {
                assert(forall|k: int| #![trigger d.subrange(off + 25, off + 33)[k]] 0 <= k < 8 ==> d.subrange(off + 25, off + 33)[k] == d[off + 25 + k]);
                assert(forall|k: int| #![trigger spec_u64_to_le_bytes(s.release_per_period)[k]] 0 <= k < 8 ==> enc[25 + k] == spec_u64_to_le_bytes(s.release_per_period)[k]);
            }
            assert(d.subrange(off + 33, off + 41) =~= spec_u64_to_le_bytes(s.period_count)) by {
                assert(forall|k: int| #![trigger d.subrange(off + 33, off + 41)[k]] 0 <= k < 8 ==> d.subrange(off + 33, off + 41)[k] == d[off + 33 + k]);
                assert(forall|k: int| #![trigger spec_u64_to_le_bytes(s.period_count)[k]] 0 <= k < 8 ==> enc[33 + k] == spec_u64_to_le_bytes(s.period_count)[k]);
            }
        },
        None => {
            assert(spec_encode_cliff(s.cliff_ts).len() == 1);
            assert(enc.len() == 33);
            assert(d.subrange(off, off + 8) =~= spec_i64_to_le_bytes(s.start_ts)) by {
                assert(forall|k: int| #![trigger d.subrange(off, off + 8)[k]] 0 <= k < 8 ==> d.subrange(off, off + 8)[k] == d[off + k]);
                assert(forall|k: int| #![trigger spec_i64_to_le_bytes(s.start_ts)[k]] 0 <= k < 8 ==> enc[k] == spec_i64_to_le_bytes(s.start_ts)[k]);
            }
            assert(enc[8] == 0);
            assert(d[off + 8] == 0);
            assert(d.subrange(off + 9, off + 17) =~= spec_i64_to_le_bytes(s.period_seconds)) by {
                assert(forall|k: int| #![trigger d.subrange(off + 9, off + 17)[k]] 0 <= k < 8 ==> d.subrange(off + 9, off + 17)[k] == d[off + 9 + k]);
                assert(forall|k: int| #![trigger spec_i64_to_le_bytes(s.period_seconds)[k]] 0 <= k < 8 ==> enc[9 + k] == spec_i64_to_le_bytes(s.period_seconds)[k]);
            }
            assert(d.subrange(off + 17, off + 25) =~= spec_u64_to_le_bytes(s.release_per_period))
                by {
                assert(forall|k: int| #![trigger d.subrange(off + 17, off + 25)[k]] 0 <= k < 8 ==> d.subrange(off + 17, off + 25)[k] == d[off + 17 + k]);
                assert(forall|k: int| #![trigger spec_u64_to_le_bytes(s.release_per_period)[k]] 0 <= k < 8 ==> enc[17 + k] == spec_u64_to_le_bytes(s.release_per_period)[k]);
            }
            assert(d.subrange(off + 25, off + 33) =~= spec_u64_to_le_bytes(s.period_count)) by {
                assert(forall|k: int| #![trigger d.subrange(off + 25, off + 33)[k]] 0 <= k < 8 ==> d.subrange(off + 25, off + 33)[k] == d[off + 25 + k]);
                assert(forall|k: int| #![trigger spec_u64_to_le_bytes(s.period_count)[k]] 0 <= k < 8 ==> enc[25 + k] == spec_u64_to_le_bytes(s.period_count)[k]);
            }
        },
    }
}

/// Decoding an encoded vault record restores every field.
pub proof fn lemma_vault_state_round_trip(beneficiary: Seq<u8>, s: VaultSchedule, bump: u8)
    requires
        beneficiary.len() == 32,
    ensures
        spec_decode_vault_state(spec_encode_vault_state(beneficiary, s, bump)) == Some(
            (beneficiary, s, bump),
        ),
{
    let d = spec_encode_vault_state(beneficiary, s, bump);
    let enc = spec_encode_schedule(s);
    lemma_i64_le_bytes_round_trip();
    lemma_auto_spec_u64_to_from_le_bytes();
    lemma_encode_schedule_len(s);
    assert(d.len() == 33 + enc.len());
    assert(d.subrange(32, 32 + enc.len() as int) =~= enc);
    lemma_decode_schedule_at(d, 32, s);
    assert(d.subrange(0, 32) =~= beneficiary);
    assert(d[32 + enc.len() as int] == bump);
}

/// Two different vault records never share an encoding, so a stored record
/// is parsed back unambiguously.
pub proof fn lemma_vault_state_encoding_injective(
    b1: Seq<u8>,
    s1: VaultSchedule,
    bump1: u8,
    b2: Seq<u8>,
    s2: VaultSchedule,
    bump2: u8,
)
    requires
        b1.len() == 32,
        b2.len() == 32,
        spec_encode_vault_state(b1, s1, bump1) == spec_encode_vault_state(b2, s2, bump2),
    ensures
        b1 == b2,
        s1 == s2,
        bump1 == bump2,
{
    lemma_vault_state_round_trip(b1, s1, bump1);
    lemma_vault_state_round_trip(b2, s2, bump2);
}

/// Decoding an encoded vault-initialization instruction restores every field.
pub proof fn lemma_init_vault_round_trip(beneficiary: Seq<u8>, s: VaultSchedule)
    requires
        beneficiary.len() == 32,
    ensures
        spec_decode_init_vault(spec_encode_init_vault(beneficiary, s)) == Some((beneficiary, s)),
{
    let d = spec_encode_init_vault(beneficiary, s);
    let enc = spec_encode_schedule(s);
    lemma_i64_le_bytes_round_trip();
    lemma_auto_spec_u64_to_from_le_bytes();
    lemma_encode_schedule_len(s);
    assert(d.len() == 33 + enc.len());
    assert(d[0] == INITIALIZE_VAULT_TAG);
    assert(d.subrange(33, 33 + enc.len() as int) =~= enc);
    lemma_decode_schedule_at(d, 33, s);
    assert(d.subrange(1, 33) =~= beneficiary);
}

} // verus!
