//! Laws of the combinators and of the conversions, proved from their contracts.

use crate::validation::{Outcome, Validation};
use crate::value::Value;
use crate::violation::ValidationError;
use vstd::prelude::*;
use vstd::std_specs::convert::FromSpec;

verus! {

/// Accumulation: where both validations failed, `and` fails with the violations of the
/// first followed by those of the second, none dropped and none merged.
pub proof fn lemma_and_accumulates<C, D, T, U>(
    first: Validation<C, T>,
    second: Validation<D, U>,
    both: Validation<D, (T, U)>,
)
    requires
        first@ is Failure,
        second@ is Failure,
        call_ensures(Validation::<C, T>::and::<D, U>, (first, second), both),
    ensures
        both@ == Outcome::<(T, U)>::Failure(first@->Failure_0 + second@->Failure_0),
{
}

/// Short circuit: on a failed validation `and_then` asks nothing of the next validation,
/// and returns the violations unchanged whatever the next validation would do.
pub proof fn lemma_and_then_short_circuits<C, D, T, U, F: FnOnce(T) -> Validation<D, U>>(
    first: Validation<C, T>,
    next: F,
    then: Validation<D, U>,
)
    requires
        first@ is Failure,
        call_ensures(Validation::<C, T>::and_then::<D, U, F>, (first, next), then),
    ensures
        call_requires(Validation::<C, T>::and_then::<D, U, F>, (first, next)),
        then@ == Outcome::<U>::Failure(first@->Failure_0),
{
}

/// Passthrough: mapping a success with a function that returns its argument gives a
/// success of the same value.
pub proof fn lemma_map_identity<C, D, T, F: Fn(T) -> T>(
    validation: Validation<C, T>,
    identity: F,
    mapped: Validation<D, T>,
)
    requires
        validation@ is Success,
        forall|value: T, result: T| call_ensures(identity, (value,), result) ==> result == value,
        call_ensures(Validation::<C, T>::map::<D, T, F>, (validation, identity), mapped),
    ensures
        mapped@ == validation@,
{
}

/// Non-interference: `combine` puts the given value beside the value of a success, and
/// leaves a failure as it is, the given value discarded.
pub proof fn lemma_combine_keeps_the_outcome<C, T, U>(
    validation: Validation<C, T>,
    value: U,
    combined: Validation<C, (U, T)>,
)
    requires
        call_ensures(Validation::<C, T>::combine::<U>, (validation, value), combined),
    ensures
        validation@ matches Outcome::Success(entity) ==> combined@ == Outcome::Success(
            (value, entity),
        ),
        validation@ matches Outcome::Failure(violations) ==> combined@ == Outcome::<
            (U, T),
        >::Failure(violations),
{
}

/// Merging is associative in its effect: whichever two of three errors are merged first,
/// the violations are those of the first, the second and the third, and the message is
/// that of the last error that has one.
pub proof fn lemma_merge_is_associative(
    first: ValidationError,
    second: ValidationError,
    third: ValidationError,
    left: ValidationError,
    left_then_third: ValidationError,
    right: ValidationError,
    first_then_right: ValidationError,
)
    requires
        call_ensures(ValidationError::merge, (first, second), left),
        call_ensures(ValidationError::merge, (left, third), left_then_third),
        call_ensures(ValidationError::merge, (second, third), right),
        call_ensures(ValidationError::merge, (first, right), first_then_right),
    ensures
        left.violations@ == first.violations@ + second.violations@,
        left_then_third.violations@ == first.violations@ + second.violations@
            + third.violations@,
        left_then_third.violations@ == first_then_right.violations@,
        left_then_third.message == first_then_right.message,
{
    assert((first.violations@ + second.violations@) + third.violations@ == first.violations@ + (
    second.violations@ + third.violations@));
}

/// Round trip: the `Value` of an integer holds that integer, whatever its type; that of a
/// `bool` or a `String` holds the value itself.
pub proof fn lemma_value_keeps_what_it_is_made_of(
    tiny: i8,
    short: i16,
    integer: i32,
    long: i64,
    byte: u8,
    word: u16,
    unsigned: u32,
    flag: bool,
    text: String,
)
    ensures
        <Value as FromSpec<i8>>::from_spec(tiny).integer() == Some(tiny as int),
        <Value as FromSpec<i16>>::from_spec(short).integer() == Some(short as int),
        <Value as FromSpec<i32>>::from_spec(integer).integer() == Some(integer as int),
        <Value as FromSpec<i64>>::from_spec(long).integer() == Some(long as int),
        <Value as FromSpec<u8>>::from_spec(byte).integer() == Some(byte as int),
        <Value as FromSpec<u16>>::from_spec(word).integer() == Some(word as int),
        <Value as FromSpec<u32>>::from_spec(unsigned).integer() == Some(unsigned as int),
        <Value as FromSpec<bool>>::from_spec(flag) == Value::Boolean(flag),
        <Value as FromSpec<String>>::from_spec(text) == Value::String(text),
        <Value as FromSpec<u32>>::from_spec(unsigned) is Integer <==> unsigned <= i32::MAX,
{
}

/// Round trip of the fallible conversions: an unsigned integer up to `i64::MAX` gives a
/// `Value` that holds it, a greater one is rejected.
pub proof fn lemma_value_rejects_what_it_cannot_hold(wide: u64, size: usize)
    ensures
        wide <= i64::MAX ==> (Value::spec_try_from_u64(wide) matches Ok(value)
            && value.integer() == Some(wide as int)),
        wide > i64::MAX ==> Value::spec_try_from_u64(wide) is Err,
        size <= i64::MAX ==> (Value::spec_try_from_usize(size) matches Ok(value)
            && value.integer() == Some(size as int)),
        size > i64::MAX ==> Value::spec_try_from_usize(size) is Err,
{
}

} // verus!
