//! Range-checked conversions between integer types.

use vstd::prelude::*;
use num_traits::ToPrimitive;

verus! {

/// `num_traits::ToPrimitive::to_u64` on a `u128`: the same number where it
/// fits into 64 bits, and nothing where it does not.
#[verifier::external_body]
pub(crate) fn u128_to_u64(value: u128) -> (converted: Option<u64>)
    ensures
        converted == (if value <= u64::MAX {
            Some(value as u64)
        } else {
            None
        }),
{
    value.to_u64()
}

/// `num_traits::ToPrimitive::to_i64` on a `u64`: the same number where it is
/// at most `i64::MAX`, and nothing where it is larger.
#[verifier::external_body]
pub(crate) fn u64_to_i64(value: u64) -> (converted: Option<i64>)
    ensures
        converted == (if value <= i64::MAX {
            Some(value as i64)
        } else {
            None
        }),
{
    value.to_i64()
}

/// `num_traits::ToPrimitive::to_u64` on an `i64`: the same number where it is
/// not negative, and nothing where it is.
#[verifier::external_body]
pub(crate) fn i64_to_u64(value: i64) -> (converted: Option<u64>)
    ensures
        converted == (if 0 <= value {
            Some(value as u64)
        } else {
            None
        }),
{
    value.to_u64()
}

} // verus!
