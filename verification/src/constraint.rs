//! Constraints defined by this crate
//!
//! For each constraint the possible error codes are defined as a set of constants. The name
//! of the constants follow the naming convention `INVALID_<constraint-name>[_<variant>]`.
//! The string values of the error codes follow the same convention in lower case, with a
//! dash in place of the underscore.

use crate::context::{FieldName, RelatedFields};
pub use crate::pattern::{Pattern, INVALID_PATTERN};
use crate::property::{
    char_count_returns, fraction_digits_returns, has_member_returns, integer_digits_returns,
    is_checked_value_returns, is_empty_value_returns, is_zero_value_returns, length_returns,
    HasCharCount, HasCheckedValue, HasDecimalDigits, HasEmptyValue, HasLength, HasMember,
    HasZeroValue,
};
use crate::validation::{Outcome, Validate, Validation};
use crate::value::Value;
use crate::violation::{
    converted, invalid_optional_value, invalid_value, is_invalid_value, reports_field,
    reports_relation, ConstraintViolation, Field, InvalidRelation, InvalidValue,
};
use std::borrow::Cow;
use vstd::prelude::*;

verus! {

/// Error code: the value does not assert to true (`AssertTrue` constraint)
pub const INVALID_ASSERT_TRUE: &'static str = "invalid-assert-true";

/// Error code: the value does not assert to false (`AssertFalse` constraint)
pub const INVALID_ASSERT_FALSE: &'static str = "invalid-assert-false";

/// Error code: the value is empty (`NotEmpty` constraint)
pub const INVALID_NOT_EMPTY: &'static str = "invalid-not-empty";

/// Error code: the length is not the exactly the specified value (`Length::Exact`
/// constraint)
pub const INVALID_LENGTH_EXACT: &'static str = "invalid-length-exact";

/// Error code: the length is not less or equal the specified maximum (`Length::Max`
/// constraint)
pub const INVALID_LENGTH_MAX: &'static str = "invalid-length-max";

/// Error code: the length is not greater or equal the specified minimum (`Length::Min`
/// constraint)
pub const INVALID_LENGTH_MIN: &'static str = "invalid-length-min";

/// Error code: the number of characters is not exactly the specified value
/// (`CharCount::Exact` constraint)
pub const INVALID_CHAR_COUNT_EXACT: &'static str = "invalid-char-count-exact";

/// Error code: the number of characters is not less or equal the specified maximum
/// (`CharCount::Max` constraint)
pub const INVALID_CHAR_COUNT_MAX: &'static str = "invalid-char-count-max";

/// Error code: the number of characters is not greater or equal the specified minimum
/// (`CharCount::Min` constraint)
pub const INVALID_CHAR_COUNT_MIN: &'static str = "invalid-char-count-min";

/// Error code: the value is not exactly the specified value (`Bound::Exact` constraint)
pub const INVALID_BOUND_EXACT: &'static str = "invalid-bound-exact";

/// Error code: the value is not less than or equal to the specified maximum
/// (`Bound::ClosedRange` or `Bound::OpenClosedRange` constraint)
pub const INVALID_BOUND_CLOSED_MAX: &'static str = "invalid-bound-closed-max";

/// Error code: the value is not greater than or equal to the specified minimum
/// (`Bound::ClosedRange` or `Bound::ClosedOpenRange` constraint)
pub const INVALID_BOUND_CLOSED_MIN: &'static str = "invalid-bound-closed-min";

/// Error code: the value is not less than the specified maximum (`Bound::OpenRange` or
/// `Bound::ClosedOpenRange` constraint)
pub const INVALID_BOUND_OPEN_MAX: &'static str = "invalid-bound-open-max";

/// Error code: the value is not greater than the specified minimum (`Bound::OpenRange` or
/// `Bound::OpenClosedRange` constraint)
pub const INVALID_BOUND_OPEN_MIN: &'static str = "invalid-bound-open-min";

/// Error code: the value is zero (`NonZero` constraint)
pub const INVALID_NON_ZERO: &'static str = "invalid-non-zero";

/// Error code: the number of integer digits is not less than or equal to the specified
/// maximum (`Digits::integer` constraint)
pub const INVALID_DIGITS_INTEGER: &'static str = "invalid-digits-integer";

/// Error code: the number of fraction digits is not less than or equal to the specified
/// maximum (`Digits::fraction` constraint)
pub const INVALID_DIGITS_FRACTION: &'static str = "invalid-digits-fraction";

/// Error code: the value does not contain the specified member element (`Contains`
/// constraint)
pub const INVALID_CONTAINS_ELEMENT: &'static str = "invalid-contains-element";

/// Error code: the two values do not match (`MustMatch` constraint)
pub const INVALID_MUST_MATCH: &'static str = "invalid-must-match";

/// Error code: the first value is not less than or equal to the second value
/// (`MustDefineRange::Inclusive` constraint)
pub const INVALID_MUST_DEFINE_RANGE_INCLUSIVE: &'static str =
    "invalid-must-define-range-inclusive";

/// Error code: the first value is not less than the second value
/// (`MustDefineRange::Exclusive` constraint)
pub const INVALID_MUST_DEFINE_RANGE_EXCLUSIVE: &'static str =
    "invalid-must-define-range-exclusive";

/// The outcome of a check that reports at most one violation: a success of the value where
/// there is none, else a failure of that violation alone.
pub open spec fn single<T>(
    value: T,
    outcome: Outcome<T>,
    violated: bool,
    violation: spec_fn(ConstraintViolation) -> bool,
) -> bool {
    if violated {
        outcome matches Outcome::Failure(violations) && violations.len() == 1 && violation(
            violations[0],
        )
    } else {
        outcome == Outcome::Success(value)
    }
}

/// The size as a `Value`, where it is small enough to be one.
pub open spec fn size_value(size: usize) -> Option<Value> {
    match Value::spec_try_from_usize(size) {
        Ok(value) => Some(value),
        Err(_) => None,
    }
}

/// The number as a `Value`, where it is small enough to be one.
pub open spec fn count_value(count: u64) -> Option<Value> {
    match Value::spec_try_from_u64(count) {
        Ok(value) => Some(value),
        Err(_) => None,
    }
}

/// A violation of a field, with a borrowed code and a name that is a context already.
fn field_violation(
    code: &'static str,
    name: FieldName,
    actual: Option<Value>,
    expected: Option<Value>,
) -> (violation: ConstraintViolation)
    ensures
        violation == ConstraintViolation::Field(
            InvalidValue {
                code: Cow::Borrowed(code),
                field: Field { name: name.0, actual, expected },
            },
        ),
{
    ConstraintViolation::Field(
        InvalidValue { code: Cow::Borrowed(code), field: Field { name: name.0, actual, expected } },
    )
}

/// A violation of a relation, with a borrowed code and names that are a context already.
fn relation_violation(code: &'static str, fields: RelatedFields, value1: Value, value2: Value) -> (violation:
    ConstraintViolation)
    ensures
        violation == ConstraintViolation::Relation(
            InvalidRelation {
                code: Cow::Borrowed(code),
                field1: Field { name: fields.0, actual: Some(value1), expected: None },
                field2: Field { name: fields.1, actual: Some(value2), expected: None },
            },
        ),
{
    ConstraintViolation::Relation(
        InvalidRelation {
            code: Cow::Borrowed(code),
            field1: Field { name: fields.0, actual: Some(value1), expected: None },
            field2: Field { name: fields.1, actual: Some(value2), expected: None },
        },
    )
}

/// Whether `equal` is what `==` returned for the two values.
pub open spec fn eq_returns<T: PartialEq>(left: T, right: T, equal: bool) -> bool {
    call_ensures(T::eq, (&left, &right), equal)
}

/// The value must be true
#[derive(Debug, Clone, Copy, PartialEq, Eq)]
pub struct AssertTrue;

impl<T: HasCheckedValue> Validate<AssertTrue, FieldName> for T {
    /// A value that is not checked is reported with the actual value `false` and the
    /// expected value `true`.
    fn validate<X: Into<FieldName>>(self, name: X, _constraint: &AssertTrue) -> (validation:
        Validation<AssertTrue, Self>)
        ensures
            exists|checked: bool| #[trigger]
                is_checked_value_returns(self, checked) && single(
                    self,
                    validation@,
                    !checked,
                    |violation: ConstraintViolation|
                        is_invalid_value(
                            violation,
                            INVALID_ASSERT_TRUE,
                            name,
                            Some(Value::Boolean(false)),
                            Some(Value::Boolean(true)),
                        ),
                ),
    {
        let checked = self.is_checked_value();
        assert(is_checked_value_returns(self, checked));
        if checked {
            Validation::success(self)
        } else {
            Validation::failure(vec![invalid_value(INVALID_ASSERT_TRUE, name, false, true)])
        }
    }
}

/// The value must be false
#[derive(Debug, Clone, Copy, PartialEq, Eq)]
pub struct AssertFalse;

impl<T: HasCheckedValue> Validate<AssertFalse, FieldName> for T {
    /// A value that is checked is reported with the actual value `true` and the expected
    /// value `false`.
    fn validate<X: Into<FieldName>>(self, name: X, _constraint: &AssertFalse) -> (validation:
        Validation<AssertFalse, Self>)
        ensures
            exists|checked: bool| #[trigger]
                is_checked_value_returns(self, checked) && single(
                    self,
                    validation@,
                    checked,
                    |violation: ConstraintViolation|
                        is_invalid_value(
                            violation,
                            INVALID_ASSERT_FALSE,
                            name,
                            Some(Value::Boolean(true)),
                            Some(Value::Boolean(false)),
                        ),
                ),
    {
        let checked = self.is_checked_value();
        assert(is_checked_value_returns(self, checked));
        if checked {
            Validation::failure(vec![invalid_value(INVALID_ASSERT_FALSE, name, true, false)])
        } else {
            Validation::success(self)
        }
    }
}

/// The value must not be empty
#[derive(Debug, Clone, Copy, PartialEq, Eq)]
pub struct NotEmpty;

impl<T: HasEmptyValue> Validate<NotEmpty, FieldName> for T {
    /// An empty value is reported without an actual and without an expected value.
    fn validate<X: Into<FieldName>>(self, name: X, _constraint: &NotEmpty) -> (validation:
        Validation<NotEmpty, Self>)
        ensures
            exists|empty: bool| #[trigger]
                is_empty_value_returns(self, empty) && single(
                    self,
                    validation@,
                    empty,
                    |violation: ConstraintViolation|
                        is_invalid_value(violation, INVALID_NOT_EMPTY, name, None, None),
                ),
    {
        let empty = self.is_empty_value();
        assert(is_empty_value_returns(self, empty));
        if empty {
            Validation::failure(vec![invalid_optional_value(INVALID_NOT_EMPTY, name, None, None)])
        } else {
            Validation::success(self)
        }
    }
}

/// The length must be within some bounds
#[derive(Debug, Clone, Copy, PartialEq, Eq)]
pub enum Length {
    /// The length must be less than or equal to the specified maximum
    Max(usize),
    /// The length must be greater than or equal to the specified minimum
    Min(usize),
    /// The length must be between the specified minimum and maximum (inclusive)
    MinMax(usize, usize),
    /// The length must be equal to the specified amount
    Exact(usize),
}

impl Length {
    /// The least length that complies, where there is one.
    pub open spec fn min(self) -> Option<usize> {
        match self {
            Length::Min(min) => Some(min),
            Length::MinMax(min, _) => Some(min),
            _ => None,
        }
    }

    /// The greatest length that complies, where there is one.
    pub open spec fn max(self) -> Option<usize> {
        match self {
            Length::Max(max) => Some(max),
            Length::MinMax(_, max) => Some(max),
            _ => None,
        }
    }

    /// The only length that complies, where there is only one.
    pub open spec fn exact(self) -> Option<usize> {
        match self {
            Length::Exact(exact) => Some(exact),
            _ => None,
        }
    }

    /// What a length violates: the error code and the limit that is not met. A length under
    /// the minimum violates the minimum, also where it is over the maximum too.
    pub open spec fn spec_validate(self, length: usize) -> Option<(&'static str, usize)> {
        if self.min().is_some() && length < self.min().unwrap() {
            Some((INVALID_LENGTH_MIN, self.min().unwrap()))
        } else if self.max().is_some() && length > self.max().unwrap() {
            Some((INVALID_LENGTH_MAX, self.max().unwrap()))
        } else if self.exact().is_some() && length != self.exact().unwrap() {
            Some((INVALID_LENGTH_EXACT, self.exact().unwrap()))
        } else {
            None
        }
    }

    /// Checks a length against this constraint: `None` where it complies, else the error
    /// code and the limit that is not met.
    pub fn validate(&self, length: usize) -> (violated: Option<(&'static str, usize)>)
        ensures
            violated == self.spec_validate(length),
    {
        match *self {
            Length::Max(max) => {
                if length > max {
                    Some((INVALID_LENGTH_MAX, max))
                } else {
                    None
                }
            },
            Length::Min(min) => {
                if length < min {
                    Some((INVALID_LENGTH_MIN, min))
                } else {
                    None
                }
            },
            Length::MinMax(min, max) => {
                if length < min {
                    Some((INVALID_LENGTH_MIN, min))
                } else if length > max {
                    Some((INVALID_LENGTH_MAX, max))
                } else {
                    None
                }
            },
            Length::Exact(exact_len) => {
                if length != exact_len {
                    Some((INVALID_LENGTH_EXACT, exact_len))
                } else {
                    None
                }
            },
        }
    }
}

impl<T: HasLength> Validate<Length, FieldName> for T {
    /// A length that violates the constraint is reported with the length as the actual
    /// value and the limit that is not met as the expected value, each where it is small
    /// enough to be a `Value`.
    fn validate<X: Into<FieldName>>(self, name: X, constraint: &Length) -> (validation: Validation<
        Length,
        Self,
    >)
        ensures
            exists|length: usize| #[trigger]
                length_returns(self, length) && single(
                    self,
                    validation@,
                    constraint.spec_validate(length).is_some(),
                    |violation: ConstraintViolation|
                        is_invalid_value(
                            violation,
                            constraint.spec_validate(length).unwrap().0,
                            name,
                            size_value(length),
                            size_value(constraint.spec_validate(length).unwrap().1),
                        ),
                ),
    {
        let length = self.length();
        assert(length_returns(self, length));
        match constraint.validate(length) {
            Some((code, expected)) => {
                let actual = Value::try_from(length).ok();
                let expected = Value::try_from(expected).ok();
                Validation::failure(vec![invalid_optional_value(code, name, actual, expected)])
            },
            None => Validation::success(self),
        }
    }
}

/// The number of characters must be within some bounds
#[derive(Debug, Clone, Copy, PartialEq, Eq)]
pub enum CharCount {
    /// The number of characters must be less than or equal to the specified maximum
    Max(usize),
    /// The number of characters must be greater than or equal to the specified minimum
    Min(usize),
    /// The number of characters must be between the specified minimum and maximum
    /// (inclusive)
    MinMax(usize, usize),
    /// The number of characters must be equal to the specified amount
    Exact(usize),
}

impl CharCount {
    /// The least number of characters that complies, where there is one.
    pub open spec fn min(self) -> Option<usize> {
        match self {
            CharCount::Min(min) => Some(min),
            CharCount::MinMax(min, _) => Some(min),
            _ => None,
        }
    }

    /// The greatest number of characters that complies, where there is one.
    pub open spec fn max(self) -> Option<usize> {
        match self {
            CharCount::Max(max) => Some(max),
            CharCount::MinMax(_, max) => Some(max),
            _ => None,
        }
    }

    /// The only number of characters that complies, where there is only one.
    pub open spec fn exact(self) -> Option<usize> {
        match self {
            CharCount::Exact(exact) => Some(exact),
            _ => None,
        }
    }

    /// What a number of characters violates: the error code and the limit that is not met.
    /// A number under the minimum violates the minimum, also where it is over the maximum
    /// too.
    pub open spec fn spec_validate(self, char_count: usize) -> Option<(&'static str, usize)> {
        if self.min().is_some() && char_count < self.min().unwrap() {
            Some((INVALID_CHAR_COUNT_MIN, self.min().unwrap()))
        } else if self.max().is_some() && char_count > self.max().unwrap() {
            Some((INVALID_CHAR_COUNT_MAX, self.max().unwrap()))
        } else if self.exact().is_some() && char_count != self.exact().unwrap() {
            Some((INVALID_CHAR_COUNT_EXACT, self.exact().unwrap()))
        } else {
            None
        }
    }

    /// Checks a number of characters against this constraint: `None` where it complies,
    /// else the error code and the limit that is not met.
    pub fn validate(&self, char_count: usize) -> (violated: Option<(&'static str, usize)>)
        ensures
            violated == self.spec_validate(char_count),
    {
        match *self {
            CharCount::Max(max) => {
                if char_count > max {
                    Some((INVALID_CHAR_COUNT_MAX, max))
                } else {
                    None
                }
            },
            CharCount::Min(min) => {
                if char_count < min {
                    Some((INVALID_CHAR_COUNT_MIN, min))
                } else {
                    None
                }
            },
            CharCount::MinMax(min, max) => {
                if char_count < min {
                    Some((INVALID_CHAR_COUNT_MIN, min))
                } else if char_count > max {
                    Some((INVALID_CHAR_COUNT_MAX, max))
                } else {
                    None
                }
            },
            CharCount::Exact(exact_val) => {
                if char_count != exact_val {
                    Some((INVALID_CHAR_COUNT_EXACT, exact_val))
                } else {
                    None
                }
            },
        }
    }
}

impl<T: HasCharCount> Validate<CharCount, FieldName> for T {
    /// A number of characters that violates the constraint is reported with the number as
    /// the actual value and the limit that is not met as the expected value, each where it
    /// is small enough to be a `Value`.
    fn validate<X: Into<FieldName>>(self, name: X, constraint: &CharCount) -> (validation:
        Validation<CharCount, Self>)
        ensures
            exists|char_count: usize| #[trigger]
                char_count_returns(self, char_count) && single(
                    self,
                    validation@,
                    constraint.spec_validate(char_count).is_some(),
                    |violation: ConstraintViolation|
                        is_invalid_value(
                            violation,
                            constraint.spec_validate(char_count).unwrap().0,
                            name,
                            size_value(char_count),
                            size_value(constraint.spec_validate(char_count).unwrap().1),
                        ),
                ),
    {
        let char_count = self.char_count();
        assert(char_count_returns(self, char_count));
        match constraint.validate(char_count) {
            Some((code, expected)) => {
                let actual = Value::try_from(char_count).ok();
                let expected = Value::try_from(expected).ok();
                Validation::failure(vec![invalid_optional_value(code, name, actual, expected)])
            },
            None => Validation::success(self),
        }
    }
}

/// The value must be within some bounds
#[derive(Debug, Clone, Copy, PartialEq, Eq)]
pub enum Bound<T> {
    /// The value must be between the specified minimum (inclusive) and maximum (inclusive)
    ClosedRange(T, T),
    /// The value must be between the specified minimum (inclusive) and maximum (exclusive)
    ClosedOpenRange(T, T),
    /// The value must be between the specified minimum (exclusive) and maximum (inclusive)
    OpenClosedRange(T, T),
    /// The value must be between the specified minimum (exclusive) and maximum (exclusive)
    OpenRange(T, T),
    /// The value must have the specified value
    Exact(T),
}

impl<T: PartialOrd> Bound<T> {
    /// The lower bound, where there is one, and whether it complies itself.
    pub open spec fn lower(self) -> Option<(T, bool)> {
        match self {
            Bound::ClosedRange(min, _) => Some((min, true)),
            Bound::ClosedOpenRange(min, _) => Some((min, true)),
            Bound::OpenClosedRange(min, _) => Some((min, false)),
            Bound::OpenRange(min, _) => Some((min, false)),
            Bound::Exact(_) => None,
        }
    }

    /// The upper bound, where there is one, and whether it complies itself.
    pub open spec fn upper(self) -> Option<(T, bool)> {
        match self {
            Bound::ClosedRange(_, max) => Some((max, true)),
            Bound::ClosedOpenRange(_, max) => Some((max, false)),
            Bound::OpenClosedRange(_, max) => Some((max, true)),
            Bound::OpenRange(_, max) => Some((max, false)),
            Bound::Exact(_) => None,
        }
    }

    /// The only value that complies, where there is only one.
    pub open spec fn exact(self) -> Option<T> {
        match self {
            Bound::Exact(bound) => Some(bound),
            _ => None,
        }
    }

    /// Whether `under` is what the comparison of the value with the lower bound returned:
    /// `<` with a bound that complies itself, `<=` with one that does not. Without a lower
    /// bound no value is under it.
    pub open spec fn under_returns(self, value: T, under: bool) -> bool {
        match self.lower() {
            Some((min, true)) => call_ensures(T::lt, (&value, &min), under),
            Some((min, false)) => call_ensures(T::le, (&value, &min), under),
            None => !under,
        }
    }

    /// Whether `over` is what the comparison of the value with the upper bound returned:
    /// `>` with a bound that complies itself, `>=` with one that does not. Without an upper
    /// bound no value is over it.
    pub open spec fn over_returns(self, value: T, over: bool) -> bool {
        match self.upper() {
            Some((max, true)) => call_ensures(T::gt, (&value, &max), over),
            Some((max, false)) => call_ensures(T::ge, (&value, &max), over),
            None => !over,
        }
    }

    /// Whether `differs` is what `!=` returned for the only value that complies and the
    /// value. Where more than one value complies none differs.
    pub open spec fn differs_returns(self, value: T, differs: bool) -> bool {
        match self.exact() {
            Some(bound) => call_ensures(T::ne, (&bound, &value), differs),
            None => !differs,
        }
    }

    /// What a value violates that is under the lower bound, else over the upper bound,
    /// else differs from the only value that complies: the error code and the bound that
    /// is not met.
    pub open spec fn violated(self, under: bool, over: bool, differs: bool) -> Option<
        (&'static str, T),
    > {
        if under {
            Some(
                (
                    if self.lower().unwrap().1 {
                        INVALID_BOUND_CLOSED_MIN
                    } else {
                        INVALID_BOUND_OPEN_MIN
                    },
                    self.lower().unwrap().0,
                ),
            )
        } else if over {
            Some(
                (
                    if self.upper().unwrap().1 {
                        INVALID_BOUND_CLOSED_MAX
                    } else {
                        INVALID_BOUND_OPEN_MAX
                    },
                    self.upper().unwrap().0,
                ),
            )
        } else if differs {
            Some((INVALID_BOUND_EXACT, self.exact().unwrap()))
        } else {
            None
        }
    }
}

impl<T: PartialOrd + Clone + Into<Value>> Validate<Bound<T>, FieldName> for T {
    /// The value is compared with the lower bound first, and with the upper bound only if
    /// it is not under the lower bound. A value that violates a bound is reported with its
    /// conversion as the actual value and the conversion of a clone of that bound as the
    /// expected value.
    fn validate<X: Into<FieldName>>(self, name: X, constraint: &Bound<T>) -> (validation:
        Validation<Bound<T>, Self>)
        ensures
            exists|under: bool, over: bool, differs: bool|
                #![trigger constraint.under_returns(self, under), constraint.over_returns(self, over), constraint.differs_returns(self, differs)]
                constraint.under_returns(self, under) && (under || constraint.over_returns(
                    self,
                    over,
                )) && constraint.differs_returns(self, differs) && single(
                    self,
                    validation@,
                    constraint.violated(under, over, differs).is_some(),
                    |violation: ConstraintViolation|
                        reports_field(
                            violation,
                            constraint.violated(under, over, differs).unwrap().0,
                            name,
                        ) && converted(self, violation.field().actual) && exists|bound: T|
                         #[trigger]
                            cloned(constraint.violated(under, over, differs).unwrap().1, bound)
                                && converted(bound, violation.field().expected),
                ),
    {
        let ghost mut under = false;
        let ghost mut over = false;
        let ghost mut differs = false;
        let violated = match constraint {
            Bound::ClosedRange(min, max) => {
                let below = self < *min;
                proof {
                    under = below;
                }
                if below {
                    Some((INVALID_BOUND_CLOSED_MIN, min.clone()))
                } else {
                    let above = self > *max;
                    proof {
                        over = above;
                    }
                    if above {
                        Some((INVALID_BOUND_CLOSED_MAX, max.clone()))
                    } else {
                        None
                    }
                }
            },
            Bound::ClosedOpenRange(min, max) => {
                let below = self < *min;
                proof {
                    under = below;
                }
                if below {
                    Some((INVALID_BOUND_CLOSED_MIN, min.clone()))
                } else {
                    let above = self >= *max;
                    proof {
                        over = above;
                    }
                    if above {
                        Some((INVALID_BOUND_OPEN_MAX, max.clone()))
                    } else {
                        None
                    }
                }
            },
            Bound::OpenClosedRange(min, max) => {
                let below = self <= *min;
                proof {
                    under = below;
                }
                if below {
                    Some((INVALID_BOUND_OPEN_MIN, min.clone()))
                } else {
                    let above = self > *max;
                    proof {
                        over = above;
                    }
                    if above {
                        Some((INVALID_BOUND_CLOSED_MAX, max.clone()))
                    } else {
                        None
                    }
                }
            },
            Bound::OpenRange(min, max) => {
                let below = self <= *min;
                proof {
                    under = below;
                }
                if below {
                    Some((INVALID_BOUND_OPEN_MIN, min.clone()))
                } else {
                    let above = self >= *max;
                    proof {
                        over = above;
                    }
                    if above {
                        Some((INVALID_BOUND_OPEN_MAX, max.clone()))
                    } else {
                        None
                    }
                }
            },
            Bound::Exact(bound) => {
                let unequal = *bound != self;
                proof {
                    differs = unequal;
                }
                if unequal {
                    Some((INVALID_BOUND_EXACT, bound.clone()))
                } else {
                    None
                }
            },
        };
        let ghost is_under = constraint.under_returns(self, under);
        let ghost is_over = constraint.over_returns(self, over);
        let ghost is_different = constraint.differs_returns(self, differs);
        proof {
            assert(is_under && (under || is_over) && is_different);
            assert(violated.is_some() == constraint.violated(under, over, differs).is_some());
            if violated.is_some() {
                assert(violated.unwrap().0 == constraint.violated(under, over, differs).unwrap().0);
                assert(cloned(
                    constraint.violated(under, over, differs).unwrap().1,
                    violated.unwrap().1,
                ));
            }
        }
        match violated {
            Some((code, expected)) => Validation::failure(
                vec![invalid_value(code, name, self, expected)],
            ),
            None => Validation::success(self),
        }
    }
}

/// The value must not be zero
#[derive(Debug, Clone, Copy, PartialEq, Eq)]
pub struct NonZero;

impl<T: HasZeroValue + Into<Value>> Validate<NonZero, FieldName> for T {
    /// A value that is zero is reported with its conversion as the actual value and without
    /// an expected value.
    fn validate<X: Into<FieldName>>(self, name: X, _constraint: &NonZero) -> (validation:
        Validation<NonZero, Self>)
        ensures
            exists|zero: bool| #[trigger]
                is_zero_value_returns(self, zero) && single(
                    self,
                    validation@,
                    zero,
                    |violation: ConstraintViolation|
                        reports_field(violation, INVALID_NON_ZERO, name) && converted(
                            self,
                            violation.field().actual,
                        ) && violation.field().expected.is_none(),
                ),
    {
        let zero = self.is_zero_value();
        assert(is_zero_value_returns(self, zero));
        if zero {
            Validation::failure(
                vec![invalid_optional_value(INVALID_NON_ZERO, name, Some(self.into()), None)],
            )
        } else {
            Validation::success(self)
        }
    }
}

/// Maximum number of allowed integer digits and fraction digits.
#[derive(Debug, Clone, Copy, PartialEq, Eq)]
pub struct Digits {
    /// Maximum number of allowed integer digits (digits to the left of the decimal point)
    pub integer: u64,
    /// Maximum number of allowed fraction digits (digits to the right of the decimal point)
    pub fraction: u64,
}

impl Digits {
    /// Whether the outcome is that of a decimal of the given numbers of digits: a success
    /// where neither number is over its maximum, else a failure of one violation for each
    /// number that is, first that of the integer digits.
    pub open spec fn reports<T, X: Into<FieldName>>(
        self,
        integer: u64,
        fraction: u64,
        name: X,
        outcome: Outcome<T>,
        value: T,
    ) -> bool {
        let first = is_invalid_value(
            outcome->Failure_0.first(),
            INVALID_DIGITS_INTEGER,
            name,
            count_value(integer),
            count_value(self.integer),
        );
        let last = is_invalid_value(
            outcome->Failure_0.last(),
            INVALID_DIGITS_FRACTION,
            name,
            count_value(fraction),
            count_value(self.fraction),
        );
        if integer <= self.integer && fraction <= self.fraction {
            outcome == Outcome::Success(value)
        } else if integer <= self.integer {
            outcome is Failure && outcome->Failure_0.len() == 1 && last
        } else if fraction <= self.fraction {
            outcome is Failure && outcome->Failure_0.len() == 1 && first
        } else {
            outcome is Failure && outcome->Failure_0.len() == 2 && first && last
        }
    }
}

impl<T: HasDecimalDigits> Validate<Digits, FieldName> for T {
    /// Too many integer digits and too many fraction digits are two violations, and both
    /// are reported where both are found: first that of the integer digits. Each holds the
    /// number of digits as the actual value and the allowed maximum as the expected value,
    /// each where it is small enough to be a `Value`.
    fn validate<X: Into<FieldName>>(self, name: X, constraint: &Digits) -> (validation: Validation<
        Digits,
        Self,
    >)
        ensures
            exists|integer: u64, fraction: u64|
                #![trigger integer_digits_returns(self, integer), fraction_digits_returns(self, fraction)]
                integer_digits_returns(self, integer) && fraction_digits_returns(self, fraction)
                    && Digits::reports(*constraint, integer, fraction, name, validation@, self),
    {
        let integer = self.integer_digits();
        let fraction = self.fraction_digits();
        assert(integer_digits_returns(self, integer));
        assert(fraction_digits_returns(self, fraction));
        if integer <= constraint.integer && fraction <= constraint.fraction {
            Validation::success(self)
        } else {
            let name: FieldName = name.into();
            let mut violations: Vec<ConstraintViolation> = Vec::new();
            if integer > constraint.integer {
                violations.push(
                    field_violation(
                        INVALID_DIGITS_INTEGER,
                        name.clone(),
                        Value::try_from(integer).ok(),
                        Value::try_from(constraint.integer).ok(),
                    ),
                );
            }
            if fraction > constraint.fraction {
                violations.push(
                    field_violation(
                        INVALID_DIGITS_FRACTION,
                        name,
                        Value::try_from(fraction).ok(),
                        Value::try_from(constraint.fraction).ok(),
                    ),
                );
            }
            Validation::failure(violations)
        }
    }
}

/// The value must contain the specified member or the specified member must be part of the
/// value.
#[derive(Debug, Clone, Copy, PartialEq, Eq)]
pub struct Contains<'a, A>(pub &'a A);

impl<'a, T, A> Validate<Contains<'a, A>, FieldName> for T where
    T: HasMember<A> + Into<Value>,
    A: Clone + Into<Value>,
 {
    /// A value that lacks the member is reported with its conversion as the actual value
    /// and the conversion of a clone of the member as the expected value.
    fn validate<X: Into<FieldName>>(self, name: X, constraint: &Contains<'a, A>) -> (validation:
        Validation<Contains<'a, A>, Self>)
        ensures
            exists|found: bool| #[trigger]
                has_member_returns(self, *constraint.0, found) && single(
                    self,
                    validation@,
                    !found,
                    |violation: ConstraintViolation|
                        reports_field(violation, INVALID_CONTAINS_ELEMENT, name) && converted(
                            self,
                            violation.field().actual,
                        ) && exists|member: A| #[trigger]
                            cloned(*constraint.0, member) && converted(
                                member,
                                violation.field().expected,
                            ),
                ),
    {
        let found = self.has_member(constraint.0);
        assert(has_member_returns(self, *constraint.0, found));
        if found {
            Validation::success(self)
        } else {
            let member = constraint.0.clone();
            assert(cloned(*constraint.0, member));
            Validation::failure(vec![invalid_value(INVALID_CONTAINS_ELEMENT, name, self, member)])
        }
    }
}

/// Two related fields must be equal.
#[derive(Debug, Clone, Copy, PartialEq, Eq)]
pub struct MustMatch;

impl<T: PartialEq + Into<Value>> Validate<MustMatch, RelatedFields> for (T, T) {
    /// Two values that are not equal are reported as a relation of the two fields, each
    /// with the conversion of its value as the actual value.
    fn validate<X: Into<RelatedFields>>(self, fields: X, _constraint: &MustMatch) -> (validation:
        Validation<MustMatch, Self>)
        ensures
            exists|equal: bool| #[trigger]
                eq_returns(self.0, self.1, equal) && single(
                    self,
                    validation@,
                    !equal,
                    |violation: ConstraintViolation|
                        reports_relation(violation, INVALID_MUST_MATCH, fields) && converted(
                            self.0,
                            violation.field1().actual,
                        ) && converted(self.1, violation.field2().actual),
                ),
    {
        let equal = self.0 == self.1;
        assert(eq_returns(self.0, self.1, equal));
        if equal {
            Validation::success(self)
        } else {
            let fields: RelatedFields = fields.into();
            Validation::failure(
                vec![relation_violation(INVALID_MUST_MATCH, fields, self.0.into(), self.1.into())],
            )
        }
    }
}

/// Two related fields must define a range: the first holds the lower end.
#[derive(Debug, Clone, Copy, PartialEq, Eq)]
pub enum MustDefineRange {
    /// The first value must be less than or equal to the second value
    Inclusive,
    /// The first value must be less than the second value
    Exclusive,
}

impl MustDefineRange {
    /// The error code of a violation of this constraint.
    pub open spec fn code(self) -> &'static str {
        match self {
            MustDefineRange::Inclusive => INVALID_MUST_DEFINE_RANGE_INCLUSIVE,
            MustDefineRange::Exclusive => INVALID_MUST_DEFINE_RANGE_EXCLUSIVE,
        }
    }

    /// Whether `complies` is what the comparison of the two values returned: `<=` where
    /// the range includes its upper end, `<` where it does not.
    pub open spec fn complies_returns<T: PartialOrd>(self, from: T, to: T, complies: bool) -> bool {
        match self {
            MustDefineRange::Inclusive => call_ensures(T::le, (&from, &to), complies),
            MustDefineRange::Exclusive => call_ensures(T::lt, (&from, &to), complies),
        }
    }
}

impl<T: PartialOrd + Into<Value>> Validate<MustDefineRange, RelatedFields> for (T, T) {
    /// Two values that define no range are reported as a relation of the two fields, each
    /// with the conversion of its value as the actual value.
    fn validate<X: Into<RelatedFields>>(self, fields: X, constraint: &MustDefineRange) -> (validation:
        Validation<MustDefineRange, Self>)
        ensures
            exists|complies: bool| #[trigger]
                constraint.complies_returns(self.0, self.1, complies) && single(
                    self,
                    validation@,
                    !complies,
                    |violation: ConstraintViolation|
                        reports_relation(violation, constraint.code(), fields) && converted(
                            self.0,
                            violation.field1().actual,
                        ) && converted(self.1, violation.field2().actual),
                ),
    {
        let (complies, code) = match *constraint {
            MustDefineRange::Inclusive => (self.0 <= self.1, INVALID_MUST_DEFINE_RANGE_INCLUSIVE),
            MustDefineRange::Exclusive => (self.0 < self.1, INVALID_MUST_DEFINE_RANGE_EXCLUSIVE),
        };
        assert(constraint.complies_returns(self.0, self.1, complies));
        if complies {
            Validation::success(self)
        } else {
            let fields: RelatedFields = fields.into();
            Validation::failure(
                vec![relation_violation(code, fields, self.0.into(), self.1.into())],
            )
        }
    }
}

} // verus!
