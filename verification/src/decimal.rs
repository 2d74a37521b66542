//! The properties of `BigDecimal`.

use crate::property::{HasDecimalDigits, HasZeroValue};
use bigdecimal::BigDecimal;
use vstd::prelude::*;

verus! {

/// What `BigDecimal::digits` returns: the number of digits of the unscaled integer.
pub uninterp spec fn unscaled_digits(decimal: BigDecimal) -> u64;

/// The exponent that `BigDecimal::as_bigint_and_exponent` returns: the number of digits
/// right of the decimal point, negative for a decimal point right of the last digit.
pub uninterp spec fn exponent(decimal: BigDecimal) -> i64;

/// What `Zero::is_zero` of `BigDecimal` returns.
pub uninterp spec fn is_zero(decimal: BigDecimal) -> bool;

/// `BigDecimal::digits`: the number of digits of the unscaled integer of the decimal.
#[verifier::external_body]
fn digits_of(decimal: &BigDecimal) -> (digits: u64)
    ensures
        digits == unscaled_digits(*decimal),
{
    decimal.digits()
}

/// `BigDecimal::as_bigint_and_exponent`: the exponent of the decimal.
#[verifier::external_body]
fn exponent_of(decimal: &BigDecimal) -> (scale: i64)
    ensures
        scale == exponent(*decimal),
{
    decimal.as_bigint_and_exponent().1
}

/// `Zero::is_zero` of `BigDecimal`: whether the decimal is zero.
#[verifier::external_body]
fn is_zero_decimal(decimal: &BigDecimal) -> (zero: bool)
    ensures
        zero == is_zero(*decimal),
{
    num_traits::Zero::is_zero(decimal)
}

/// The number of integer digits of a decimal of `digits` digits, `exponent` of them right
/// of the decimal point: the difference of the two, and no less than none nor more than a
/// `u64` holds.
pub open spec fn spec_integer_digits(digits: u64, exponent: i64) -> u64 {
    if digits - exponent < 0 {
        0
    } else if digits - exponent > u64::MAX {
        u64::MAX
    } else {
        (digits - exponent) as u64
    }
}

/// The number of fraction digits of a decimal with the given exponent: the exponent, where
/// it is positive.
pub open spec fn spec_fraction_digits(exponent: i64) -> u64 {
    if exponent > 0 {
        exponent as u64
    } else {
        0
    }
}

/// Returns the number of integer digits of a decimal of `digits` digits, `exponent` of
/// them right of the decimal point.
pub fn integer_digits(digits: u64, exponent: i64) -> (count: u64)
    ensures
        count == spec_integer_digits(digits, exponent),
{
    if exponent > 0 {
        let right: u64 = exponent as u64;
        if digits < right {
            0
        } else {
            digits - right
        }
    } else if exponent == 0 {
        digits
    } else {
        let zeros: u64 = (-(exponent + 1)) as u64 + 1;
        if digits > u64::MAX - zeros {
            u64::MAX
        } else {
            digits + zeros
        }
    }
}

/// Returns the number of fraction digits of a decimal with the given exponent.
pub fn fraction_digits(exponent: i64) -> (count: u64)
    ensures
        count == spec_fraction_digits(exponent),
{
    if exponent > 0 {
        exponent as u64
    } else {
        0
    }
}

impl HasDecimalDigits for BigDecimal {
    fn integer_digits(&self) -> (digits: u64)
        ensures
            digits == spec_integer_digits(unscaled_digits(*self), exponent(*self)),
    {
        integer_digits(digits_of(self), exponent_of(self))
    }

    fn fraction_digits(&self) -> (digits: u64)
        ensures
            digits == spec_fraction_digits(exponent(*self)),
    {
        fraction_digits(exponent_of(self))
    }
}

impl HasZeroValue for BigDecimal {
    fn is_zero_value(&self) -> (zero: bool)
        ensures
            zero == is_zero(*self),
    {
        is_zero_decimal(self)
    }
}

} // verus!
