//! The three contexts in which a constraint is checked.

use crate::sealed::Sealed;
use crate::text::{as_str, clone_text, converts};
use crate::violation::ConstraintViolation;
use std::borrow::Cow;
use std::ops::Deref;
use vstd::prelude::*;
use vstd::std_specs::convert::{FromSpecImpl, IntoSpec};

verus! {

/// Marks a type as a context for validation functions.
///
/// The set of contexts is closed: `FieldName`, `RelatedFields` and `State`.
pub trait Context: Sealed {
    /// Whether the violation is of the kind that a validation in this context reports.
    spec fn reports(violation: ConstraintViolation) -> bool;
}

/// The field level context: the name of the field that is validated.
#[derive(Debug, PartialEq, Eq)]
pub struct FieldName(pub Cow<'static, str>);

impl Sealed for FieldName {

}

impl Context for FieldName {
    open spec fn reports(violation: ConstraintViolation) -> bool {
        violation is Field
    }
}

impl Clone for FieldName {
    fn clone(&self) -> (copy: Self)
        ensures
            copy == *self,
    {
        FieldName(clone_text(&self.0))
    }
}

impl<A: Into<Cow<'static, str>>> From<A> for FieldName {
    fn from(value: A) -> (name: Self)
        ensures
            converts(value, name.0),
    {
        FieldName(value.into())
    }
}

impl<A: Into<Cow<'static, str>>> FromSpecImpl<A> for FieldName {
    open spec fn obeys_from_spec() -> bool {
        <A as IntoSpec<Cow<'static, str>>>::obeys_into_spec()
    }

    open spec fn from_spec(value: A) -> Self {
        FieldName(value.into_spec())
    }
}

impl Deref for FieldName {
    type Target = Cow<'static, str>;

    fn deref(&self) -> (name: &Self::Target)
        ensures
            *name == self.0,
    {
        &self.0
    }
}

impl FieldName {
    /// Unwraps this field name context and returns the field name itself.
    pub fn unwrap(self) -> (name: Cow<'static, str>)
        ensures
            name == self.0,
    {
        self.0
    }
}

/// The context of a pair of related fields: the names of the two fields.
#[derive(Debug, PartialEq, Eq)]
pub struct RelatedFields(pub Cow<'static, str>, pub Cow<'static, str>);

impl Sealed for RelatedFields {

}

impl Context for RelatedFields {
    open spec fn reports(violation: ConstraintViolation) -> bool {
        violation is Relation
    }
}

impl Clone for RelatedFields {
    fn clone(&self) -> (copy: Self)
        ensures
            copy == *self,
    {
        RelatedFields(clone_text(&self.0), clone_text(&self.1))
    }
}

impl<A: Into<Cow<'static, str>>, B: Into<Cow<'static, str>>> From<(A, B)> for RelatedFields {
    fn from(value: (A, B)) -> (fields: Self)
        ensures
            converts(value.0, fields.0),
            converts(value.1, fields.1),
    {
        RelatedFields(value.0.into(), value.1.into())
    }
}

impl<A: Into<Cow<'static, str>>, B: Into<Cow<'static, str>>> FromSpecImpl<(A, B)> for RelatedFields {
    open spec fn obeys_from_spec() -> bool {
        <A as IntoSpec<Cow<'static, str>>>::obeys_into_spec() && <B as IntoSpec<
            Cow<'static, str>,
        >>::obeys_into_spec()
    }

    open spec fn from_spec(value: (A, B)) -> Self {
        RelatedFields(value.0.into_spec(), value.1.into_spec())
    }
}

impl RelatedFields {
    /// Unwraps this related fields context and returns the 2 field names.
    pub fn unwrap(self) -> (names: (Cow<'static, str>, Cow<'static, str>))
        ensures
            names == (self.0, self.1),
    {
        (self.0, self.1)
    }

    /// Returns a reference to the name of the first field.
    pub fn first(&self) -> (name: &str)
        ensures
            name@ == self.0@,
    {
        as_str(&self.0)
    }

    /// Returns a reference to the name of the second field.
    pub fn second(&self) -> (name: &str)
        ensures
            name@ == self.1@,
    {
        as_str(&self.1)
    }
}

/// The state context: the state information that a validation needs.
#[derive(Debug, Clone, PartialEq, Eq)]
pub struct State<S>(pub S);

impl<S> Sealed for State<S> {

}

impl<S> Context for State<S> {
    open spec fn reports(violation: ConstraintViolation) -> bool {
        violation is State
    }
}

impl<S> From<S> for State<S> {
    fn from(value: S) -> (state: Self)
        ensures
            state == State(value),
    {
        State(value)
    }
}

impl<S> FromSpecImpl<S> for State<S> {
    open spec fn obeys_from_spec() -> bool {
        true
    }

    open spec fn from_spec(value: S) -> Self {
        State(value)
    }
}

impl<S> Deref for State<S> {
    type Target = S;

    fn deref(&self) -> (state: &Self::Target)
        ensures
            *state == self.0,
    {
        &self.0
    }
}

impl<S> State<S> {
    /// Unwraps this state context and returns the state information itself.
    pub fn unwrap(self) -> (state: S)
        ensures
            state == self.0,
    {
        self.0
    }
}

} // verus!
