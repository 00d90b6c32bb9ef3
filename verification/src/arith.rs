//! What the verifier is told of the `num` crate's arithmetic on the integer
//! types that the ledger uses. Nothing here is proved: each item restates what
//! `num` implements for the type it names.

use vstd::prelude::*;

verus! {

/// `num::Zero::zero` at `u32`: the additive identity, which is the number 0.
pub assume_specification[ <u32 as num::Zero>::zero ]() -> (zero: u32)
    ensures
        zero == 0,
;

/// `num::Zero::zero` at `u128`: the additive identity, which is the number 0.
pub assume_specification[ <u128 as num::Zero>::zero ]() -> (zero: u128)
    ensures
        zero == 0,
;

/// `num::One::one` at `u32`: the multiplicative identity, which is the number 1.
pub assume_specification[ <u32 as num::One>::one ]() -> (one: u32)
    ensures
        one == 1,
;

/// `num::CheckedAdd::checked_add` at `u32`: the sum where it fits in a `u32`,
/// and `None` where it does not.
pub assume_specification[ <u32 as num::CheckedAdd>::checked_add ](a: &u32, v: &u32) -> (sum: Option<
    u32,
>)
    ensures
        *a + *v <= u32::MAX ==> sum == Some((*a + *v) as u32),
        *a + *v > u32::MAX ==> sum.is_none(),
;

/// `num::CheckedAdd::checked_add` at `u128`: the sum where it fits in a `u128`,
/// and `None` where it does not.
pub assume_specification[ <u128 as num::CheckedAdd>::checked_add ](a: &u128, v: &u128) -> (sum:
    Option<u128>)
    ensures
        *a + *v <= u128::MAX ==> sum == Some((*a + *v) as u128),
        *a + *v > u128::MAX ==> sum.is_none(),
;

/// `num::CheckedSub::checked_sub` at `u128`: the difference where it is not
/// negative, and `None` where it is.
pub assume_specification[ <u128 as num::CheckedSub>::checked_sub ](a: &u128, v: &u128) -> (diff:
    Option<u128>)
    ensures
        *a >= *v ==> diff == Some((*a - *v) as u128),
        *a < *v ==> diff.is_none(),
;

} // verus!
