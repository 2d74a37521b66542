//! The data that describes a failed validation.

use crate::context::{FieldName, RelatedFields};
use crate::text::converts;
use crate::value::Value;
use std::borrow::Cow;
use vstd::prelude::*;
use vstd::std_specs::convert::FromSpecImpl;

verus! {

/// Whether `value` holds what the conversion of `source` returned.
pub open spec fn converted<A: Into<Value>>(source: A, value: Option<Value>) -> bool {
    value matches Some(target) && converts(source, target)
}

/// Whether the violation is that of a field, with the given code, borrowed, and the
/// conversion of the given name.
pub open spec fn reports_field<N: Into<FieldName>>(
    violation: ConstraintViolation,
    code: &'static str,
    field_name: N,
) -> bool {
    violation matches ConstraintViolation::Field(invalid) && invalid.code == Cow::<str>::Borrowed(
        code,
    ) && converts(field_name, FieldName(invalid.field.name))
}

/// Whether the violation is that of a field, with the given code, borrowed, the conversion
/// of the given name, and the given actual and expected value.
pub open spec fn is_invalid_value<N: Into<FieldName>>(
    violation: ConstraintViolation,
    code: &'static str,
    field_name: N,
    actual: Option<Value>,
    expected: Option<Value>,
) -> bool {
    reports_field(violation, code, field_name) && violation.field().actual == actual
        && violation.field().expected == expected
}

/// Whether the violation is that of a relation, with the given code, borrowed, and two
/// fields with the conversions of the given names and no expected values.
pub open spec fn reports_relation<F: Into<RelatedFields>>(
    violation: ConstraintViolation,
    code: &'static str,
    fields: F,
) -> bool {
    violation matches ConstraintViolation::Relation(invalid) && invalid.code == Cow::<
        str,
    >::Borrowed(code) && converts(fields, RelatedFields(invalid.field1.name, invalid.field2.name))
        && invalid.field1.expected.is_none() && invalid.field2.expected.is_none()
}

/// Details about a field.
#[derive(Debug, Clone, PartialEq)]
pub struct Field {
    /// The name of the field
    pub name: Cow<'static, str>,
    /// The actual value of the field
    pub actual: Option<Value>,
    /// An example for an expected value
    pub expected: Option<Value>,
}

/// A constraint violation found by a validation in the `FieldName` context.
#[derive(Debug, Clone, PartialEq)]
pub struct InvalidValue {
    /// Error code that identifies the exact error.
    pub code: Cow<'static, str>,
    /// Details about the field having a value that violates a constraint.
    pub field: Field,
}

/// A constraint violation found by a validation in the `RelatedFields` context.
#[derive(Debug, Clone, PartialEq)]
pub struct InvalidRelation {
    /// Error code that identifies the exact error.
    pub code: Cow<'static, str>,
    /// Details about the first of the pair of related fields
    pub field1: Field,
    /// Details about the second of the pair of related fields
    pub field2: Field,
}

/// A constraint violation found by a validation in the `State` context.
#[derive(Debug, Clone, PartialEq)]
pub struct InvalidState {
    /// Error code that identifies the exact error.
    pub code: Cow<'static, str>,
    /// Parameters that describe the circumstances of the violation
    pub params: Vec<Field>,
}

/// A constraint violation found by some validation function.
///
/// There is one variant for each context: a validation in the `FieldName` context reports
/// `Field`, one in the `RelatedFields` context `Relation` and one in the `State` context
/// `State`.
#[derive(Debug, Clone, PartialEq)]
pub enum ConstraintViolation {
    /// Violation of a constraint validated in the `FieldName` context
    Field(InvalidValue),
    /// Violation of a constraint validated in the `RelatedFields` context
    Relation(InvalidRelation),
    /// Violation of a constraint validated in the `State` context
    State(InvalidState),
}

impl ConstraintViolation {
    /// The field of a violation of a field.
    pub open spec fn field(self) -> Field
        recommends
            self is Field,
    {
        self->Field_0.field
    }

    /// The first field of a violation of a relation.
    pub open spec fn field1(self) -> Field
        recommends
            self is Relation,
    {
        self->Relation_0.field1
    }

    /// The second field of a violation of a relation.
    pub open spec fn field2(self) -> Field
        recommends
            self is Relation,
    {
        self->Relation_0.field2
    }
}

impl From<InvalidValue> for ConstraintViolation {
    fn from(invalid_value: InvalidValue) -> (violation: Self)
        ensures
            violation == ConstraintViolation::Field(invalid_value),
    {
        ConstraintViolation::Field(invalid_value)
    }
}

impl FromSpecImpl<InvalidValue> for ConstraintViolation {
    open spec fn obeys_from_spec() -> bool {
        true
    }

    open spec fn from_spec(invalid_value: InvalidValue) -> Self {
        ConstraintViolation::Field(invalid_value)
    }
}

impl From<InvalidRelation> for ConstraintViolation {
    fn from(invalid_relation: InvalidRelation) -> (violation: Self)
        ensures
            violation == ConstraintViolation::Relation(invalid_relation),
    {
        ConstraintViolation::Relation(invalid_relation)
    }
}

impl FromSpecImpl<InvalidRelation> for ConstraintViolation {
    open spec fn obeys_from_spec() -> bool {
        true
    }

    open spec fn from_spec(invalid_relation: InvalidRelation) -> Self {
        ConstraintViolation::Relation(invalid_relation)
    }
}

impl From<InvalidState> for ConstraintViolation {
    fn from(invalid_state: InvalidState) -> (violation: Self)
        ensures
            violation == ConstraintViolation::State(invalid_state),
    {
        ConstraintViolation::State(invalid_state)
    }
}

impl FromSpecImpl<InvalidState> for ConstraintViolation {
    open spec fn obeys_from_spec() -> bool {
        true
    }

    open spec fn from_spec(invalid_state: InvalidState) -> Self {
        ConstraintViolation::State(invalid_state)
    }
}

/// The error type returned if the validation finds any constraint violation.
///
/// The message describes the context in which the validation has been performed, not a
/// single violation.
#[derive(Debug, Clone, PartialEq)]
pub struct ValidationError {
    /// Message that describes the context in which the validation has been executed
    pub message: Option<Cow<'static, str>>,
    /// A list of constraint violations found during validation
    pub violations: Vec<ConstraintViolation>,
}

impl ValidationError {
    /// The message of two merged errors: that of the second where it has one, else that of
    /// the first.
    pub open spec fn merged_message(
        first: Option<Cow<'static, str>>,
        second: Option<Cow<'static, str>>,
    ) -> Option<Cow<'static, str>> {
        match second {
            Some(_) => second,
            None => first,
        }
    }

    /// Merges this validation error with another validation error.
    ///
    /// The violations of this error come first, those of the other follow. The message is
    /// that of the other error where it has one, else that of this error.
    pub fn merge(self, other: ValidationError) -> (merged: ValidationError)
        ensures
            merged.violations@ == self.violations@ + other.violations@,
            merged.message == Self::merged_message(self.message, other.message),
    {
        let ValidationError { message: message1, violations: mut violations } = self;
        let ValidationError { message: message2, violations: mut violations2 } = other;
        let message = match (message1, message2) {
            (_, Some(msg2)) => Some(msg2),
            (Some(msg1), None) => Some(msg1),
            (None, None) => None,
        };
        violations.append(&mut violations2);
        ValidationError { message, violations }
    }
}

/// Constructs a violation for a validation performed in the `FieldName` context, of a field
/// whose value is mandatory.
///
/// Each part of the violation is the conversion of the argument of that name; the actual
/// and the expected value are both present.
pub fn invalid_value<K, N, A, E>(
    code: K,
    field_name: N,
    actual_value: A,
    expected_value: E,
) -> (violation: ConstraintViolation) where
    K: Into<Cow<'static, str>>,
    N: Into<FieldName>,
    A: Into<Value>,
    E: Into<Value>,

    ensures
        violation matches ConstraintViolation::Field(invalid) && converts(code, invalid.code)
            && converts(field_name, FieldName(invalid.field.name))
            && converted(actual_value, invalid.field.actual)
            && converted(expected_value, invalid.field.expected),
{
    ConstraintViolation::Field(
        InvalidValue {
            code: code.into(),
            field: Field {
                name: field_name.into().unwrap(),
                actual: Some(actual_value.into()),
                expected: Some(expected_value.into()),
            },
        },
    )
}

/// Constructs a violation for a validation performed in the `FieldName` context, of a field
/// whose value is optional.
///
/// The code and the name are the conversions of the arguments; the actual and the expected
/// value are the arguments themselves.
pub fn invalid_optional_value<K, N>(
    code: K,
    field_name: N,
    actual: Option<Value>,
    expected: Option<Value>,
) -> (violation: ConstraintViolation) where K: Into<Cow<'static, str>>, N: Into<FieldName>
    ensures
        violation matches ConstraintViolation::Field(invalid) && converts(code, invalid.code)
            && converts(field_name, FieldName(invalid.field.name))
            && invalid.field.actual == actual
            && invalid.field.expected == expected,
{
    ConstraintViolation::Field(
        InvalidValue {
            code: code.into(),
            field: Field { name: field_name.into().unwrap(), actual, expected },
        },
    )
}

/// Constructs a violation for a validation performed in the `RelatedFields` context.
///
/// Each field holds the conversion of its name and of its value as the actual value, and no
/// expected value.
pub fn invalid_relation<K, N1, V1, N2, V2>(
    code: K,
    field_name1: N1,
    field_value1: V1,
    field_name2: N2,
    field_value2: V2,
) -> (violation: ConstraintViolation) where
    K: Into<Cow<'static, str>>,
    N1: Into<Cow<'static, str>>,
    V1: Into<Value>,
    N2: Into<Cow<'static, str>>,
    V2: Into<Value>,

    ensures
        violation matches ConstraintViolation::Relation(invalid) && converts(code, invalid.code)
            && converts(field_name1, invalid.field1.name)
            && converted(field_value1, invalid.field1.actual)
            && invalid.field1.expected.is_none()
            && converts(field_name2, invalid.field2.name)
            && converted(field_value2, invalid.field2.actual)
            && invalid.field2.expected.is_none(),
{
    ConstraintViolation::Relation(
        InvalidRelation {
            code: code.into(),
            field1: Field {
                name: field_name1.into(),
                actual: Some(field_value1.into()),
                expected: None,
            },
            field2: Field {
                name: field_name2.into(),
                actual: Some(field_value2.into()),
                expected: None,
            },
        },
    )
}

/// Constructs a violation for a validation performed in the `State` context.
///
/// The code is the conversion of the argument; the parameters are the given ones, in their
/// order.
pub fn invalid_state<K>(code: K, params: Vec<Field>) -> (violation: ConstraintViolation) where
    K: Into<Cow<'static, str>>,

    ensures
        violation matches ConstraintViolation::State(invalid) && converts(code, invalid.code)
            && invalid.params == params,
{
    ConstraintViolation::State(InvalidState { code: code.into(), params })
}

} // verus!
