//! Checked arithmetic and identity elements, supplied by the `num` crate.
//!
//! Every function here is trusted: its body is a single call into `num`,
//! and its contract restates what `num` documents for the primitive
//! unsigned integers.

use vstd::prelude::*;

verus! {

/// `num::Zero::zero` for `u32`: the additive identity, 0.
#[verifier::external_body]
pub(crate) fn zero_u32() -> (r: u32)
    ensures
        r == 0,
{
    num::Zero::zero()
}

/// `num::One::one` for `u32`: the multiplicative identity, 1.
#[verifier::external_body]
pub(crate) fn one_u32() -> (r: u32)
    ensures
        r == 1,
{
    num::One::one()
}

/// `num::Zero::zero` for `u128`: the additive identity, 0.
#[verifier::external_body]
pub(crate) fn zero_u128() -> (r: u128)
    ensures
        r == 0,
{
    num::Zero::zero()
}

/// `num::CheckedSub::checked_sub` for `u128`: the difference `a - b`, or
/// `None` when it would fall below zero.
#[verifier::external_body]
pub(crate) fn checked_sub_u128(a: u128, b: u128) -> (r: Option<u128>)
    ensures
        r == if a >= b { Some((a - b) as u128) } else { None::<u128> },
{
    num::CheckedSub::checked_sub(&a, &b)
}

/// `num::CheckedAdd::checked_add` for `u128`: the sum `a + b`, or `None`
/// when it would exceed `u128::MAX`.
#[verifier::external_body]
pub(crate) fn checked_add_u128(a: u128, b: u128) -> (r: Option<u128>)
    ensures
        r == if a + b <= u128::MAX { Some((a + b) as u128) } else { None::<u128> },
{
    num::CheckedAdd::checked_add(&a, &b)
}

} // verus!
