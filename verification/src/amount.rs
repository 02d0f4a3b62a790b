//! Token amounts: the arithmetic of `cosmwasm_std::Uint128` on plain `u128`
//! values, and the decimal text in which an amount is reported.

use cosmwasm_std::{DivideByZeroError, OverflowError, Uint128};
use vstd::prelude::*;

verus! {

/// `cosmwasm_std::OverflowError`, carried through as an opaque value.
#[verifier::external_type_specification]
#[verifier::external_body]
pub struct ExOverflowError(OverflowError);

/// `cosmwasm_std::DivideByZeroError`, carried through as an opaque value.
#[verifier::external_type_specification]
#[verifier::external_body]
pub struct ExDivideByZeroError(DivideByZeroError);

/// The character of one decimal digit.
pub open spec fn digit_char(d: nat) -> char {
    if d == 0 {
        '0'
    } else if d == 1 {
        '1'
    } else if d == 2 {
        '2'
    } else if d == 3 {
        '3'
    } else if d == 4 {
        '4'
    } else if d == 5 {
        '5'
    } else if d == 6 {
        '6'
    } else if d == 7 {
        '7'
    } else if d == 8 {
        '8'
    } else {
        '9'
    }
}

/// The decimal numeral of `n`: most significant digit first, no leading zero
/// but for `0` itself.
pub open spec fn decimal(n: nat) -> Seq<char>
    decreases n,
{
    if n < 10 {
        seq![digit_char(n)]
    } else {
        decimal(n / 10).push(digit_char(n % 10))
    }
}

/// `Uint128 + Uint128`, which is `Uint128::strict_add`: the exact sum. The
/// outside function panics when the sum does not fit in 128 bits, so such
/// operands are excluded.
#[verifier::external_body]
pub(crate) fn uint128_add(lhs: u128, rhs: u128) -> (sum: u128)
    requires
        lhs + rhs <= u128::MAX,
    ensures
        sum == lhs + rhs,
{
    (Uint128::new(lhs) + Uint128::new(rhs)).u128()
}

/// `Uint128::checked_sub`: the exact difference when `rhs` does not exceed
/// `lhs`, and an error otherwise.
#[verifier::external_body]
pub(crate) fn uint128_checked_sub(lhs: u128, rhs: u128) -> (r: Result<u128, OverflowError>)
    ensures
        r is Ok <==> rhs <= lhs,
        r matches Ok(difference) ==> difference == lhs - rhs,
{
    match Uint128::new(lhs).checked_sub(Uint128::new(rhs)) {
        Ok(difference) => Ok(difference.u128()),
        Err(e) => Err(e),
    }
}

/// `Uint128::checked_div`: the quotient rounded down when `rhs` is not zero,
/// and an error when it is.
#[verifier::external_body]
pub(crate) fn uint128_checked_div(lhs: u128, rhs: u128) -> (r: Result<u128, DivideByZeroError>)
    ensures
        r is Ok <==> rhs != 0,
        r matches Ok(quotient) ==> quotient == lhs / rhs,
{
    match Uint128::new(lhs).checked_div(Uint128::new(rhs)) {
        Ok(quotient) => Ok(quotient.u128()),
        Err(e) => Err(e),
    }
}

/// `Uint128`'s `to_string`, which formats the inner `u128` with std's
/// `Display`: the decimal numeral of the value.
#[verifier::external_body]
pub(crate) fn uint128_to_string(value: u128) -> (text: String)
    ensures
        text@ == decimal(value as nat),
{
    Uint128::new(value).to_string()
}

} // verus!
