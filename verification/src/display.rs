//! The text of values and violations, for error messages.
//!
//! The text of each type is stated by a relation `is_text`: the text is not computed by
//! the library alone, it is what `to_string` of the numbers, decimals and dates returns.
//! The bits of a float have no text here, nor has anything that holds them: `to_text`
//! returns `None` then, and the application formats the float.

use crate::text::as_str;
use crate::value::Value;
use crate::violation::{
    ConstraintViolation, Field, InvalidRelation, InvalidState, InvalidValue, ValidationError,
};
use std::fmt::Display;
use vstd::prelude::*;
use vstd::string::{to_string_from_display_ensures, StringExecFns};

verus! {

/// The text that stands for a value that is not there.
pub const NOT_AVAILABLE: &'static str = "(n.a.)";

/// The text that separates the items of a list.
pub const SEPARATOR: &'static str = ", ";

/// The texts, in their order, with the separator between each two of them.
pub open spec fn joined(texts: Seq<Seq<char>>, separator: Seq<char>) -> Seq<char>
    decreases texts.len(),
{
    if texts.len() == 0 {
        Seq::empty()
    } else if texts.len() == 1 {
        texts[0]
    } else {
        joined(texts.drop_last(), separator) + separator + texts.last()
    }
}

/// The texts of the strings.
pub open spec fn views(strings: Seq<String>) -> Seq<Seq<char>> {
    strings.map_values(|string: String| string@)
}

/// Whether the text is what `to_string` returned for the value.
pub open spec fn displays_as<T: Display>(value: T, text: Seq<char>) -> bool {
    exists|string: String| #[trigger]
        to_string_from_display_ensures::<T>(&value, string) && string@ == text
}

/// Whether each text is what `to_string` returned for the item at its place.
pub open spec fn displays<T: Display>(items: Seq<T>, texts: Seq<String>) -> bool {
    texts.len() == items.len() && forall|i: int|
        0 <= i < items.len() ==> to_string_from_display_ensures::<T>(&items[i], #[trigger] texts[i])
}

/// What `to_string` returns for the point in time in UTC that lies the given seconds and
/// nanoseconds after the Unix epoch, where `chrono` has such a point in time.
pub uninterp spec fn utc_text(seconds: i64, nanoseconds: u32) -> Option<Seq<char>>;

/// `DateTime::from_timestamp` and `to_string` of the `DateTime<Utc>` that it returns: the
/// text of a point in time in UTC, or `None` where `chrono` has no such point in time.
#[verifier::external_body]
fn utc_to_string(seconds: i64, nanoseconds: u32) -> (text: Option<String>)
    ensures
        text.is_some() == utc_text(seconds, nanoseconds).is_some(),
        text matches Some(string) ==> utc_text(seconds, nanoseconds) == Some(string@),
{
    match chrono::DateTime::from_timestamp(seconds, nanoseconds) {
        Some(time) => Some(time.to_string()),
        None => None,
    }
}

/// The text of a value that may not be there: what `to_string` returns for the value, or
/// `(n.a.)` where there is none.
pub fn option_to_string<T: Display>(optional_value: Option<&T>) -> (text: String)
    ensures
        (match optional_value {
            Some(value) => to_string_from_display_ensures::<T>(value, text),
            None => text@ == NOT_AVAILABLE@,
        }),
{
    match optional_value {
        Some(value) => value.to_string(),
        None => String::from_str(NOT_AVAILABLE),
    }
}

/// The texts, in their order, with `, ` between each two of them.
pub fn join(texts: &Vec<String>) -> (text: String)
    ensures
        text@ == joined(views(texts@), SEPARATOR@),
{
    let mut result = String::new();
    let mut index: usize = 0;
    while index < texts.len()
        invariant
            index <= texts@.len(),
            result@ == joined(views(texts@.subrange(0, index as int)), SEPARATOR@),
        decreases texts@.len() - index,
    {
        if index > 0 {
            result.append(SEPARATOR);
        }
        result.append(texts[index].as_str());
        proof {
            let before = views(texts@.subrange(0, index as int));
            let after = views(texts@.subrange(0, index + 1));
            assert(after.drop_last() == before);
            assert(after.last() == texts@[index as int]@);
        }
        index += 1;
    }
    proof {
        assert(texts@.subrange(0, index as int) == texts@);
    }
    result
}

/// The text of a list: what `to_string` returns for each item, in the order of the items,
/// with `, ` between each two of them. The text of a list without items is empty.
pub fn array_to_string<T: Display>(array: &[T]) -> (text: String)
    ensures
        exists|texts: Seq<String>| #[trigger]
            displays(array@, texts) && text@ == joined(views(texts), SEPARATOR@),
{
    let mut texts: Vec<String> = Vec::new();
    let mut index: usize = 0;
    while index < array.len()
        invariant
            index <= array@.len(),
            displays(array@.subrange(0, index as int), texts@),
        decreases array@.len() - index,
    {
        texts.push(array[index].to_string());
        index += 1;
    }
    proof {
        assert(array@.subrange(0, index as int) == array@);
    }
    join(&texts)
}

impl Value {
    /// Whether the value has a text: all but the bits of a float and a point in time that
    /// `chrono` does not have.
    pub open spec fn has_text(self) -> bool {
        match self {
            Value::Float(_) => false,
            Value::Double(_) => false,
            Value::DateTime(seconds, nanoseconds) => utc_text(seconds, nanoseconds).is_some(),
            _ => true,
        }
    }

    /// Whether the text is that of the value: a string itself, and of the others what
    /// `to_string` returned for what the value holds.
    pub open spec fn is_text(self, text: Seq<char>) -> bool {
        match self {
            Value::String(value) => text == value@,
            Value::Integer(value) => displays_as(value, text),
            Value::Long(value) => displays_as(value, text),
            Value::Float(_) => false,
            Value::Double(_) => false,
            Value::Boolean(value) => displays_as(value, text),
            Value::Decimal(value) => displays_as(value, text),
            Value::Date(value) => displays_as(value, text),
            Value::DateTime(seconds, nanoseconds) => utc_text(seconds, nanoseconds) == Some(text),
        }
    }

    /// The text of the value, where it has one.
    pub fn to_text(&self) -> (text: Option<String>)
        ensures
            text.is_some() == self.has_text(),
            text matches Some(string) ==> self.is_text(string@),
    {
        match self {
            Value::String(value) => Some(value.clone()),
            Value::Integer(value) => Some(value.to_string()),
            Value::Long(value) => Some(value.to_string()),
            Value::Float(_) => None,
            Value::Double(_) => None,
            Value::Boolean(value) => Some(value.to_string()),
            Value::Decimal(value) => Some(value.to_string()),
            Value::Date(value) => Some(value.to_string()),
            Value::DateTime(seconds, nanoseconds) => utc_to_string(*seconds, *nanoseconds),
        }
    }
}

/// Whether a value that may not be there has a text: one that is not there has.
pub open spec fn option_has_text(value: Option<Value>) -> bool {
    match value {
        Some(value) => value.has_text(),
        None => true,
    }
}

/// Whether the text is that of a value that may not be there: that of the value, or
/// `(n.a.)` where there is none.
pub open spec fn option_is_text(value: Option<Value>, text: Seq<char>) -> bool {
    match value {
        Some(value) => value.is_text(text),
        None => text == NOT_AVAILABLE@,
    }
}

/// The text of a value that may not be there, where it has one.
fn option_to_text(value: &Option<Value>) -> (text: Option<String>)
    ensures
        text.is_some() == option_has_text(*value),
        text matches Some(string) ==> option_is_text(*value, string@),
{
    match value {
        Some(value) => value.to_text(),
        None => Some(String::from_str(NOT_AVAILABLE)),
    }
}

impl Field {
    /// Whether the field has a text: where its values have.
    pub open spec fn has_text(self) -> bool {
        option_has_text(self.actual) && option_has_text(self.expected)
    }

    /// Whether the text is that of the field: `field: `, the name, `, actual: `, the text
    /// of the actual value, `, expected: ` and the text of the expected value.
    pub open spec fn is_text(self, text: Seq<char>) -> bool {
        exists|actual: Seq<char>, expected: Seq<char>|
            #![trigger option_is_text(self.actual, actual), option_is_text(self.expected, expected)]
            option_is_text(self.actual, actual) && option_is_text(self.expected, expected) && text
                == "field: "@ + self.name@ + ", actual: "@ + actual + ", expected: "@ + expected
    }

    /// The text of the field, where it has one.
    pub fn to_text(&self) -> (text: Option<String>)
        ensures
            text.is_some() == self.has_text(),
            text matches Some(string) ==> self.is_text(string@),
    {
        match (option_to_text(&self.actual), option_to_text(&self.expected)) {
            (Some(actual), Some(expected)) => {
                let mut text = String::from_str("field: ");
                text.append(as_str(&self.name));
                text.append(", actual: ");
                text.append(actual.as_str());
                text.append(", expected: ");
                text.append(expected.as_str());
                Some(text)
            },
            _ => None,
        }
    }
}

impl InvalidValue {
    /// Whether the violation has a text: where its field has.
    pub open spec fn has_text(self) -> bool {
        self.field.has_text()
    }

    /// Whether the text is that of the violation: the code, ` of `, the name of the field,
    /// ` which is `, the text of the actual value, `, expected to be ` and the text of the
    /// expected value.
    pub open spec fn is_text(self, text: Seq<char>) -> bool {
        exists|actual: Seq<char>, expected: Seq<char>|
            #![trigger option_is_text(self.field.actual, actual), option_is_text(self.field.expected, expected)]
            option_is_text(self.field.actual, actual) && option_is_text(
                self.field.expected,
                expected,
            ) && text == self.code@ + " of "@ + self.field.name@ + " which is "@ + actual
                + ", expected to be "@ + expected
    }

    /// The text of the violation, where it has one.
    pub fn to_text(&self) -> (text: Option<String>)
        ensures
            text.is_some() == self.has_text(),
            text matches Some(string) ==> self.is_text(string@),
    {
        match (option_to_text(&self.field.actual), option_to_text(&self.field.expected)) {
            (Some(actual), Some(expected)) => {
                let mut text = String::from_str(as_str(&self.code));
                text.append(" of ");
                text.append(as_str(&self.field.name));
                text.append(" which is ");
                text.append(actual.as_str());
                text.append(", expected to be ");
                text.append(expected.as_str());
                Some(text)
            },
            _ => None,
        }
    }
}

impl InvalidRelation {
    /// Whether the violation has a text: where the actual values of its fields have.
    pub open spec fn has_text(self) -> bool {
        option_has_text(self.field1.actual) && option_has_text(self.field2.actual)
    }

    /// Whether the text is that of the violation: the code, ` of `, the name of the first
    /// field, ` which is `, the text of its actual value, ` and `, the name of the second
    /// field, ` which is ` and the text of its actual value.
    pub open spec fn is_text(self, text: Seq<char>) -> bool {
        exists|actual1: Seq<char>, actual2: Seq<char>|
            #![trigger option_is_text(self.field1.actual, actual1), option_is_text(self.field2.actual, actual2)]
            option_is_text(self.field1.actual, actual1) && option_is_text(
                self.field2.actual,
                actual2,
            ) && text == self.code@ + " of "@ + self.field1.name@ + " which is "@ + actual1
                + " and "@ + self.field2.name@ + " which is "@ + actual2
    }

    /// The text of the violation, where it has one.
    pub fn to_text(&self) -> (text: Option<String>)
        ensures
            text.is_some() == self.has_text(),
            text matches Some(string) ==> self.is_text(string@),
    {
        match (option_to_text(&self.field1.actual), option_to_text(&self.field2.actual)) {
            (Some(actual1), Some(actual2)) => {
                let mut text = String::from_str(as_str(&self.code));
                text.append(" of ");
                text.append(as_str(&self.field1.name));
                text.append(" which is ");
                text.append(actual1.as_str());
                text.append(" and ");
                text.append(as_str(&self.field2.name));
                text.append(" which is ");
                text.append(actual2.as_str());
                Some(text)
            },
            _ => None,
        }
    }
}

/// Whether each text is that of the field at its place.
pub open spec fn are_texts_of_fields(fields: Seq<Field>, texts: Seq<Seq<char>>) -> bool {
    texts.len() == fields.len() && forall|i: int|
        0 <= i < fields.len() ==> (#[trigger] fields[i]).is_text(texts[i])
}

/// The texts of the fields, where each has one.
fn fields_to_texts(fields: &Vec<Field>) -> (texts: Option<Vec<String>>)
    ensures
        texts.is_some() == (forall|i: int| 0 <= i < fields@.len() ==> (#[trigger] fields@[i]).has_text()),
        texts matches Some(strings) ==> are_texts_of_fields(fields@, views(strings@)),
{
    let mut texts: Vec<String> = Vec::new();
    let mut index: usize = 0;
    while index < fields.len()
        invariant
            index <= fields@.len(),
            forall|i: int| 0 <= i < index ==> (#[trigger] fields@[i]).has_text(),
            are_texts_of_fields(fields@.subrange(0, index as int), views(texts@)),
        decreases fields@.len() - index,
    {
        match fields[index].to_text() {
            Some(text) => {
                texts.push(text);
            },
            None => {
                return None;
            },
        }
        index += 1;
    }
    proof {
        assert(fields@.subrange(0, index as int) == fields@);
    }
    Some(texts)
}

impl InvalidState {
    /// Whether the violation has a text: where each of its parameters has.
    pub open spec fn has_text(self) -> bool {
        forall|i: int| 0 <= i < self.params@.len() ==> (#[trigger] self.params@[i]).has_text()
    }

    /// Whether the text is that of the violation: the code, ` for parameters: ` and the
    /// texts of the parameters, in their order, with `, ` between each two of them.
    pub open spec fn is_text(self, text: Seq<char>) -> bool {
        exists|params: Seq<Seq<char>>| #[trigger]
            are_texts_of_fields(self.params@, params) && text == self.code@
                + " for parameters: "@ + joined(params, SEPARATOR@)
    }

    /// The text of the violation, where it has one.
    pub fn to_text(&self) -> (text: Option<String>)
        ensures
            text.is_some() == self.has_text(),
            text matches Some(string) ==> self.is_text(string@),
    {
        match fields_to_texts(&self.params) {
            Some(params) => {
                let mut text = String::from_str(as_str(&self.code));
                text.append(" for parameters: ");
                text.append(join(&params).as_str());
                Some(text)
            },
            None => None,
        }
    }
}

impl ConstraintViolation {
    /// Whether the violation has a text.
    pub open spec fn has_text(self) -> bool {
        match self {
            ConstraintViolation::Field(invalid) => invalid.has_text(),
            ConstraintViolation::Relation(invalid) => invalid.has_text(),
            ConstraintViolation::State(invalid) => invalid.has_text(),
        }
    }

    /// Whether the text is that of the violation: the text of what it holds.
    pub open spec fn is_text(self, text: Seq<char>) -> bool {
        match self {
            ConstraintViolation::Field(invalid) => invalid.is_text(text),
            ConstraintViolation::Relation(invalid) => invalid.is_text(text),
            ConstraintViolation::State(invalid) => invalid.is_text(text),
        }
    }

    /// The text of the violation, where it has one.
    pub fn to_text(&self) -> (text: Option<String>)
        ensures
            text.is_some() == self.has_text(),
            text matches Some(string) ==> self.is_text(string@),
    {
        match self {
            ConstraintViolation::Field(invalid) => invalid.to_text(),
            ConstraintViolation::Relation(invalid) => invalid.to_text(),
            ConstraintViolation::State(invalid) => invalid.to_text(),
        }
    }
}

/// Whether each text is that of the violation at its place.
pub open spec fn are_texts_of_violations(
    violations: Seq<ConstraintViolation>,
    texts: Seq<Seq<char>>,
) -> bool {
    texts.len() == violations.len() && forall|i: int|
        0 <= i < violations.len() ==> (#[trigger] violations[i]).is_text(texts[i])
}

/// The texts of the violations, where each has one.
fn violations_to_texts(violations: &Vec<ConstraintViolation>) -> (texts: Option<Vec<String>>)
    ensures
        texts.is_some() == (forall|i: int|
            0 <= i < violations@.len() ==> (#[trigger] violations@[i]).has_text()),
        texts matches Some(strings) ==> are_texts_of_violations(violations@, views(strings@)),
{
    let mut texts: Vec<String> = Vec::new();
    let mut index: usize = 0;
    while index < violations.len()
        invariant
            index <= violations@.len(),
            forall|i: int| 0 <= i < index ==> (#[trigger] violations@[i]).has_text(),
            are_texts_of_violations(violations@.subrange(0, index as int), views(texts@)),
        decreases violations@.len() - index,
    {
        match violations[index].to_text() {
            Some(text) => {
                texts.push(text);
            },
            None => {
                return None;
            },
        }
        index += 1;
    }
    proof {
        assert(violations@.subrange(0, index as int) == violations@);
    }
    Some(texts)
}

impl ValidationError {
    /// Whether the error has a text: where each of its violations has.
    pub open spec fn has_text(self) -> bool {
        forall|i: int|
            0 <= i < self.violations@.len() ==> (#[trigger] self.violations@[i]).has_text()
    }

    /// Whether the text is that of the error: the texts of the violations, in their order,
    /// with `, ` between each two of them, after the message and `: ` where the error has
    /// a message.
    pub open spec fn is_text(self, text: Seq<char>) -> bool {
        exists|violations: Seq<Seq<char>>| #[trigger]
            are_texts_of_violations(self.violations@, violations) && text == match self.message {
                Some(message) => message@ + ": "@ + joined(violations, SEPARATOR@),
                None => joined(violations, SEPARATOR@),
            }
    }

    /// The text of the error, where it has one.
    pub fn to_text(&self) -> (text: Option<String>)
        ensures
            text.is_some() == self.has_text(),
            text matches Some(string) ==> self.is_text(string@),
    {
        match violations_to_texts(&self.violations) {
            Some(violations) => {
                let list = join(&violations);
                match &self.message {
                    Some(message) => {
                        let mut text = String::from_str(as_str(message));
                        text.append(": ");
                        text.append(list.as_str());
                        Some(text)
                    },
                    None => Some(list),
                }
            },
            None => None,
        }
    }
}

} // verus!
