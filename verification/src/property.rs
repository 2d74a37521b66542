//! Property traits
//!
//! A property trait names one property of a value that a constraint evaluates, such as its
//! length. A constraint is implemented once, for all types that have the property.
//!
//! The traits demand nothing of an implementation. A constraint is stated over what the
//! function of the trait returned: the `..._returns` relations of this module. What the
//! function returns for the types of `std` is stated where it is implemented for them.

use vstd::prelude::*;

verus! {

/// The checked property of a type.
///
/// This can be a property of enums with 2 variants that have a similar meaning to the
/// boolean type, e.g. yes/no, agreed/rejected, open/closed,...
pub trait HasCheckedValue {
    /// Returns whether this value represents "checked"
    fn is_checked_value(&self) -> bool;
}

/// Whether `checked` is what `is_checked_value` returned for the value.
pub open spec fn is_checked_value_returns<T: HasCheckedValue>(value: T, checked: bool) -> bool {
    call_ensures(T::is_checked_value, (&value,), checked)
}

/// The empty property of a type.
///
/// This is usually a property of some kind of container like `String`, `Vec`, `HashSet` or
/// `HashMap`.
pub trait HasEmptyValue {
    /// Returns whether the value is empty
    fn is_empty_value(&self) -> bool;
}

/// Whether `empty` is what `is_empty_value` returned for the value.
pub open spec fn is_empty_value_returns<T: HasEmptyValue>(value: T, empty: bool) -> bool {
    call_ensures(T::is_empty_value, (&value,), empty)
}

/// The length property of a type.
///
/// This is usually a property of some kind of container like `String`, `Vec`, `HashSet`,
/// `HashMap` or `&[T]`.
pub trait HasLength {
    /// Returns the length of a value
    fn length(&self) -> usize;
}

/// Whether `length` is what `length` returned for the value.
pub open spec fn length_returns<T: HasLength>(value: T, length: usize) -> bool {
    call_ensures(T::length, (&value,), length)
}

/// The number of characters property of a type.
///
/// The character count may be different from the length if any character occupies more
/// than one byte in memory.
pub trait HasCharCount {
    /// Returns the number of characters
    fn char_count(&self) -> usize;
}

/// Whether `count` is what `char_count` returned for the value.
pub open spec fn char_count_returns<T: HasCharCount>(value: T, count: usize) -> bool {
    call_ensures(T::char_count, (&value,), count)
}

/// The zero property of a type.
pub trait HasZeroValue {
    /// Returns whether the value is zero
    fn is_zero_value(&self) -> bool;
}

/// Whether `zero` is what `is_zero_value` returned for the value.
pub open spec fn is_zero_value_returns<T: HasZeroValue>(value: T, zero: bool) -> bool {
    call_ensures(T::is_zero_value, (&value,), zero)
}

/// Properties of a decimal number.
pub trait HasDecimalDigits {
    /// Returns the number of integer digits
    ///
    /// These are the digits to the left of the decimal point
    fn integer_digits(&self) -> u64;

    /// Returns the number of fractional digits
    ///
    /// These are the digits to the right of the decimal point
    fn fraction_digits(&self) -> u64;
}

/// Whether `digits` is what `integer_digits` returned for the value.
pub open spec fn integer_digits_returns<T: HasDecimalDigits>(value: T, digits: u64) -> bool {
    call_ensures(T::integer_digits, (&value,), digits)
}

/// Whether `digits` is what `fraction_digits` returned for the value.
pub open spec fn fraction_digits_returns<T: HasDecimalDigits>(value: T, digits: u64) -> bool {
    call_ensures(T::fraction_digits, (&value,), digits)
}

/// Determines whether the given element is part of a value or member of a collection.
pub trait HasMember<A> {
    /// Returns whether the given element is part of this value or a member of it
    fn has_member(&self, element: &A) -> bool;
}

/// Whether `member` is what `has_member` returned for the value and the element.
pub open spec fn has_member_returns<T: HasMember<A>, A>(value: T, element: A, member: bool) -> bool {
    call_ensures(T::has_member, (&value, &element), member)
}

} // verus!
