//! The state of an ongoing validation and the ways to combine validations.

use crate::context::Context;
use crate::text::converts;
use crate::violation::{ConstraintViolation, ValidationError};
use std::borrow::Cow;
use std::marker::PhantomData;
use std::ops::Deref;
use vstd::prelude::*;

verus! {

/// A value of type `T` that has been validated by the constraint `C`.
///
/// A `Validated` is obtained only from a successful `Validation`, by `result` or
/// `with_message`. Its view is the validated value.
#[derive(Debug, PartialEq, Eq)]
pub struct Validated<C, T>(PhantomData<C>, T);

impl<C, T: Clone> Clone for Validated<C, T> {
    fn clone(&self) -> (copy: Self)
        ensures
            cloned(self@, copy@),
    {
        Validated(PhantomData, self.1.clone())
    }
}

impl<C, T: Copy> Copy for Validated<C, T> {

}

impl<C, T> View for Validated<C, T> {
    type V = T;

    closed spec fn view(&self) -> T {
        self.1
    }
}

impl<C, T> Validated<C, T> {
    /// Unwraps the value that has been validated.
    pub fn unwrap(self) -> (value: T)
        ensures
            value == self@,
    {
        self.1
    }
}

impl<C, T> Deref for Validated<C, T> {
    type Target = T;

    fn deref(&self) -> (value: &Self::Target)
        ensures
            *value == self@,
    {
        &self.1
    }
}

/// What a validation has found so far: the valid value, or the violations in the order in
/// which they were found.
pub enum Outcome<T> {
    /// The value complies.
    Success(T),
    /// The violations that were found.
    Failure(Seq<ConstraintViolation>),
}

#[derive(Debug, PartialEq)]
enum InnerValidation<C, T> {
    Success(PhantomData<C>, T),
    Failure(Vec<ConstraintViolation>),
}

/// State of an ongoing validation.
///
/// Its view is an `Outcome`. The combinators `and`, `and_then`, `combine` and `map` build
/// complex validations from simple ones; `result` and `with_message` finish a validation.
#[derive(Debug, PartialEq)]
pub struct Validation<C, T>(InnerValidation<C, T>);

/// The result of a finished validation.
pub type ValidationResult<C, T> = Result<Validated<C, T>, ValidationError>;

impl<C, T> View for Validation<C, T> {
    type V = Outcome<T>;

    closed spec fn view(&self) -> Outcome<T> {
        match self.0 {
            InnerValidation::Success(_, value) => Outcome::Success(value),
            InnerValidation::Failure(violations) => Outcome::Failure(violations@),
        }
    }
}

impl<C, T> Validation<C, T> {
    /// Constructs a `Validation` for a successful validation step.
    pub fn success(valid: T) -> (validation: Self)
        ensures
            validation@ == Outcome::Success(valid),
    {
        Validation(InnerValidation::Success(PhantomData, valid))
    }

    /// Constructs a `Validation` for a failed validation step.
    pub fn failure(constraint_violations: Vec<ConstraintViolation>) -> (validation: Self)
        ensures
            validation@ == Outcome::<T>::Failure(constraint_violations@),
    {
        Validation(InnerValidation::Failure(constraint_violations))
    }

    /// Finishes a validation and returns the result of the validation.
    ///
    /// A success gives the validated value, a failure the violations that were found, without
    /// a message.
    pub fn result(self) -> (result: ValidationResult<C, T>)
        ensures
            (match self@ {
                Outcome::Success(value) => result matches Ok(validated) && validated@ == value,
                Outcome::Failure(violations) => result matches Err(error) && error.message.is_none()
                    && error.violations@ == violations,
            }),
    {
        match self.0 {
            InnerValidation::Success(constraint, entity) => Ok(Validated(constraint, entity)),
            InnerValidation::Failure(violations) => Err(
                ValidationError { message: None, violations },
            ),
        }
    }

    /// Finishes a validation providing a message and returns the result.
    ///
    /// A success gives the validated value, a failure the violations that were found, with
    /// the conversion of the given message.
    pub fn with_message<M: Into<Cow<'static, str>>>(self, message: M) -> (result: ValidationResult<
        C,
        T,
    >)
        ensures
            (match self@ {
                Outcome::Success(value) => result matches Ok(validated) && validated@ == value,
                Outcome::Failure(violations) => result matches Err(error) && error.violations@
                    == violations && (error.message matches Some(text) && converts(message, text)),
            }),
    {
        match self.0 {
            InnerValidation::Success(constraint, entity) => Ok(Validated(constraint, entity)),
            InnerValidation::Failure(violations) => Err(
                ValidationError { message: Some(message.into()), violations },
            ),
        }
    }

    /// Combines a value that needs no further validation with the validation result.
    ///
    /// A success holds the given value beside its own; a failure stays as it is.
    pub fn combine<U>(self, value: U) -> (combined: Validation<C, (U, T)>)
        ensures
            combined@ == (match self@ {
                Outcome::Success(entity) => Outcome::Success((value, entity)),
                Outcome::Failure(violations) => Outcome::Failure(violations),
            }),
    {
        match self.0 {
            InnerValidation::Success(_, entity) => Validation::success((value, entity)),
            InnerValidation::Failure(violations) => Validation::failure(violations),
        }
    }

    /// Maps the validated value into another type.
    ///
    /// The conversion is applied to the value of a success, and only then; a failure keeps
    /// its violations.
    pub fn map<D, U, F: Fn(T) -> U>(self, convert: F) -> (mapped: Validation<D, U>)
        requires
            self@ matches Outcome::Success(entity) ==> call_requires(convert, (entity,)),
        ensures
            (match self@ {
                Outcome::Success(entity) => mapped@ matches Outcome::Success(converted)
                    && call_ensures(convert, (entity,), converted),
                Outcome::Failure(violations) => mapped@ == Outcome::<U>::Failure(violations),
            }),
    {
        match self.0 {
            InnerValidation::Success(_, entity) => Validation::success(convert(entity)),
            InnerValidation::Failure(violations) => Validation::failure(violations),
        }
    }

    /// Combines this validation with another validation unconditionally.
    ///
    /// The result is a success only if both are. Otherwise it holds the violations of this
    /// validation followed by those of the other.
    pub fn and<D, U>(self, other: Validation<D, U>) -> (both: Validation<D, (T, U)>)
        ensures
            both@ == (match (self@, other@) {
                (Outcome::Success(value1), Outcome::Success(value2)) => Outcome::Success(
                    (value1, value2),
                ),
                (Outcome::Failure(violations), Outcome::Success(_)) => Outcome::Failure(
                    violations,
                ),
                (Outcome::Success(_), Outcome::Failure(violations)) => Outcome::Failure(
                    violations,
                ),
                (Outcome::Failure(violations1), Outcome::Failure(violations2)) => Outcome::Failure(
                    violations1 + violations2,
                ),
            }),
    {
        match (self.0, other.0) {
            (InnerValidation::Success(_, value1), InnerValidation::Success(_, value2)) => {
                Validation::success((value1, value2))
            },
            (InnerValidation::Failure(violations), InnerValidation::Success(_, _)) => {
                Validation::failure(violations)
            },
            (InnerValidation::Success(_, _), InnerValidation::Failure(violations)) => {
                Validation::failure(violations)
            },
            (InnerValidation::Failure(mut violations), InnerValidation::Failure(mut violations2)) => {
                violations.append(&mut violations2);
                Validation::failure(violations)
            },
        }
    }

    /// Combines this validation with another validation conditionally.
    ///
    /// The next validation is executed on the value of a success, and only then; a failure
    /// keeps its violations.
    pub fn and_then<D, U, F: FnOnce(T) -> Validation<D, U>>(self, next: F) -> (then: Validation<
        D,
        U,
    >)
        requires
            self@ matches Outcome::Success(value) ==> call_requires(next, (value,)),
        ensures
            (match self@ {
                Outcome::Success(value) => call_ensures(next, (value,), then),
                Outcome::Failure(violations) => then@ == Outcome::<U>::Failure(violations),
            }),
    {
        match self.0 {
            InnerValidation::Success(_, value1) => next(value1),
            InnerValidation::Failure(error) => Validation::failure(error),
        }
    }
}

/// The validation function: whether a value complies to a constraint.
///
/// A value that complies comes back unchanged, as a success. One that does not gives a
/// failure of at least one violation, each of the kind that the context `S` reports.
pub trait Validate<C, S>: Sized where S: Context {
    /// Validates this value for being compliant to the specified constraint `C` in the
    /// given context `S`.
    fn validate<X: Into<S>>(self, context: X, constraint: &C) -> (validation: Validation<C, Self>)
        ensures
            validation@ matches Outcome::Success(value) ==> value == self,
            validation@ matches Outcome::Failure(violations) ==> violations.len() > 0 && forall|
                i: int,
            |
                0 <= i < violations.len() ==> S::reports(#[trigger] violations[i]),
    ;
}

} // verus!
