//! Saturating arithmetic helpers used for all value amounts. Money math must
//! never wrap, so every multiply and add either saturates explicitly or is
//! proved not to overflow.

use vstd::arithmetic::mul::lemma_mul_inequality;
use vstd::prelude::*;

verus! {

/// Mathematical value of `a * b` clamped to the `u64` range.
pub open spec fn sat_mul_u64_spec(a: u64, b: u64) -> u64 {
    if a * b > u64::MAX {
        u64::MAX
    } else {
        (a * b) as u64
    }
}

/// Mathematical value of `a + b` clamped to the `u64` range.
pub open spec fn sat_add_u64_spec(a: u64, b: u64) -> u64 {
    if a + b > u64::MAX {
        u64::MAX
    } else {
        (a + b) as u64
    }
}

/// Mathematical value of `a - b` clamped below at zero.
pub open spec fn sat_sub_u64_spec(a: u64, b: u64) -> u64 {
    if a >= b {
        (a - b) as u64
    } else {
        0
    }
}

/// Mathematical value of `a + b` clamped to the `u128` range.
pub open spec fn sat_add_u128_spec(a: u128, b: u128) -> u128 {
    if a + b > u128::MAX {
        u128::MAX
    } else {
        (a + b) as u128
    }
}

/// Saturating multiplication on `u64` amounts.
pub fn sat_mul_u64(a: u64, b: u64) -> (r: u64)
    ensures
        r == sat_mul_u64_spec(a, b),
{
    match a.checked_mul(b) {
        Some(p) => p,
        None => u64::MAX,
    }
}

/// Saturating addition on `u64` amounts.
pub fn sat_add_u64(a: u64, b: u64) -> (r: u64)
    ensures
        r == sat_add_u64_spec(a, b),
{
    a.saturating_add(b)
}

/// Saturating subtraction on `u64` amounts.
pub fn sat_sub_u64(a: u64, b: u64) -> (r: u64)
    ensures
        r == sat_sub_u64_spec(a, b),
{
    a.saturating_sub(b)
}

/// Saturating addition on `u128` accumulators.
pub fn sat_add_u128(a: u128, b: u128) -> (r: u128)
    ensures
        r == sat_add_u128_spec(a, b),
{
    a.saturating_add(b)
}

/// A saturating product grows with either factor.
pub proof fn lemma_sat_mul_u64_monotonic(a: u64, b1: u64, b2: u64)
    requires
        b1 <= b2,
    ensures
        sat_mul_u64_spec(a, b1) <= sat_mul_u64_spec(a, b2),
{
    lemma_mul_inequality(b1 as int, b2 as int, a as int);
    assert(b1 * a == a * b1) by (nonlinear_arith);
    assert(b2 * a == a * b2) by (nonlinear_arith);
}

} // verus!
