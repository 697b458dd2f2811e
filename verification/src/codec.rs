//! Fixed-width little-endian encodings shared by every persisted record and
//! instruction payload. Signed values are carried in two's complement, so a
//! round trip through bytes restores them exactly.

use vstd::bytes::{
    lemma_auto_spec_u64_to_from_le_bytes, spec_u64_from_le_bytes, spec_u64_to_le_bytes,
    u64_from_le_bytes, u64_to_le_bytes,
};
use vstd::prelude::*;

verus! {

pub const TWO_POW_63: u64 = 0x8000_0000_0000_0000;

pub const TWO_POW_64_I128: i128 = 0x1_0000_0000_0000_0000;

/// The two's complement image of a signed 64-bit value.
pub open spec fn i64_as_u64(x: i64) -> u64 {
    if x >= 0 {
        x as u64
    } else {
        (x + 0x1_0000_0000_0000_0000) as u64
    }
}

/// The signed 64-bit value with the given two's complement image.
pub open spec fn u64_as_i64(x: u64) -> i64 {
    if x < 0x8000_0000_0000_0000 {
        x as i64
    } else {
        (x - 0x1_0000_0000_0000_0000) as i64
    }
}

/// The little-endian two's complement encoding of a signed 64-bit value.
pub open spec fn spec_i64_to_le_bytes(x: i64) -> Seq<u8> {
    spec_u64_to_le_bytes(i64_as_u64(x))
}

/// The signed 64-bit value encoded by eight little-endian bytes.
pub open spec fn spec_i64_from_le_bytes(s: Seq<u8>) -> i64
    recommends
        s.len() == 8,
{
    u64_as_i64(spec_u64_from_le_bytes(s))
}

/// Decoding an encoded signed value restores it, and equal encodings come
/// from equal values.
pub proof fn lemma_i64_le_bytes_round_trip()
    ensures
        forall|x: i64| #[trigger] spec_i64_to_le_bytes(x).len() == 8,
        forall|x: i64| #[trigger] spec_i64_from_le_bytes(spec_i64_to_le_bytes(x)) == x,
        forall|x: i64, y: i64| spec_i64_to_le_bytes(x) == spec_i64_to_le_bytes(y) ==> x == y,
{
    lemma_auto_spec_u64_to_from_le_bytes();
    assert forall|x: i64| #[trigger] spec_i64_from_le_bytes(spec_i64_to_le_bytes(x)) == x by {
        assert(spec_u64_from_le_bytes(spec_u64_to_le_bytes(i64_as_u64(x))) == i64_as_u64(x));
    }
    assert forall|x: i64, y: i64| spec_i64_to_le_bytes(x) == spec_i64_to_le_bytes(y) implies x
        == y by {
        assert(spec_i64_from_le_bytes(spec_i64_to_le_bytes(x)) == x);
        assert(spec_i64_from_le_bytes(spec_i64_to_le_bytes(y)) == y);
    }
}

/// Equal unsigned encodings come from equal values.
pub proof fn lemma_u64_le_bytes_injective()
    ensures
        forall|x: u64, y: u64| spec_u64_to_le_bytes(x) == spec_u64_to_le_bytes(y) ==> x == y,
{
    lemma_auto_spec_u64_to_from_le_bytes();
    assert forall|x: u64, y: u64| spec_u64_to_le_bytes(x) == spec_u64_to_le_bytes(y) implies x
        == y by {
        assert(spec_u64_from_le_bytes(spec_u64_to_le_bytes(x)) == x);
        assert(spec_u64_from_le_bytes(spec_u64_to_le_bytes(y)) == y);
    }
}

/// Encodes a signed 64-bit value as eight little-endian bytes.
pub fn i64_to_le_bytes(x: i64) -> (s: Vec<u8>)
    ensures
        s@ == spec_i64_to_le_bytes(x),
        s@.len() == 8,
{
    let u: u64 = if x >= 0 {
        x as u64
    } else {
        ((x as i128) + TWO_POW_64_I128) as u64
    };
    assert(u == i64_as_u64(x));
    u64_to_le_bytes(u)
}

/// Decodes a signed 64-bit value from eight little-endian bytes.
pub fn i64_from_le_bytes(s: &[u8]) -> (x: i64)
    requires
        s@.len() == 8,
    ensures
        x == spec_i64_from_le_bytes(s@),
{
    let u = u64_from_le_bytes(s);
    if u < TWO_POW_63 {
        u as i64
    } else {
        ((u as i128) - TWO_POW_64_I128) as i64
    }
}

} // verus!
