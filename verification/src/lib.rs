//! # `valid` - composable validation for custom types
//!
//! A validation confirms that a value complies to a constraint. The validation function is
//! the method of the [`Validate`] trait: it takes the value, a context and the constraint,
//! and returns a [`Validation`], which is either a success that holds the value unchanged
//! or a failure that holds the violations that were found.
//!
//! Validations are composed with the combinators of [`Validation`]: `and` validates two
//! values and collects the violations of both, `and_then` validates a second value only if
//! the first is valid, `combine` adds a value that needs no validation and `map` builds the
//! validated value from its validated parts. `result` and `with_message` finish a
//! validation: they return a [`Validated`] value or a [`ValidationError`].
//!
//! There are three kinds of constraints, and a context and a violation for each:
//!
//! | Constraint on          | Context           | Violation                       |
//! |------------------------|-------------------|---------------------------------|
//! | a field                | [`FieldName`]     | `ConstraintViolation::Field`    |
//! | a relation of 2 fields | [`RelatedFields`] | `ConstraintViolation::Relation` |
//! | the state of the app   | [`State`]         | `ConstraintViolation::State`    |
//!
//! A violation describes what is wrong by an error code and by the names and values of the
//! fields, not by a message for the user: to present it is left to the application.
//!
//! The constraints of the [`constraint`] module are implemented for all types that have the
//! property that the constraint is about; the properties are the traits of the
//! [`property`] module. A constraint of the application is a type of its own, for which
//! the application implements [`Validate`].
//!
//! Every function states what it returns in its `ensures` clause, over the view of its
//! arguments. The view of a [`Validation`] is an [`Outcome`]. The laws that hold between
//! the functions are the proof functions of the [`laws`] module.

mod collections;
pub mod constraint;
pub mod context;
pub mod decimal;
pub mod display;
pub mod laws;
pub mod pattern;
pub mod property;
mod sealed;
mod std_types;
pub mod text;
pub mod validation;
pub mod value;
pub mod violation;

pub use crate::context::{Context, FieldName, RelatedFields, State};
pub use crate::value::Value;
pub use crate::violation::{
    invalid_optional_value, invalid_relation, invalid_state, invalid_value, ConstraintViolation,
    Field, InvalidRelation, InvalidState, InvalidValue, ValidationError,
};
pub use crate::validation::{Outcome, Validate, Validated, Validation, ValidationResult};
