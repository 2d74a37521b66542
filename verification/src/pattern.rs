//! The constraint of a regular expression.

use crate::context::FieldName;
use crate::constraint::single;
use crate::validation::{Validate, Validation};
use crate::value::Value;
use crate::violation::{invalid_value, reports_field, ConstraintViolation};
use regex::Regex;
use vstd::prelude::*;

verus! {

/// `regex::Regex`, carried through as an opaque value.
#[verifier::external_type_specification]
#[verifier::external_body]
pub struct ExRegex(regex::Regex);

/// `Clone::clone` of `regex::Regex`: the copy is the same regular expression.
pub assume_specification[ <regex::Regex as Clone>::clone ](regex: &regex::Regex) -> (copy:
    regex::Regex)
    ensures
        copy == *regex,
;

/// What `Regex::is_match` returns: whether the regular expression matches anywhere in the
/// text.
pub uninterp spec fn matches(regex: Regex, text: Seq<char>) -> bool;

/// What `to_string` of a `Regex` returns: the text that the regular expression was
/// compiled from.
pub uninterp spec fn source(regex: Regex) -> Seq<char>;

/// `Regex::is_match`: whether the regular expression matches anywhere in the text.
#[verifier::external_body]
fn is_match(regex: &Regex, text: &str) -> (matched: bool)
    ensures
        matched == matches(*regex, text@),
{
    regex.is_match(text)
}

/// `to_string` of a `Regex`: the text that the regular expression was compiled from.
#[verifier::external_body]
fn source_of(regex: &Regex) -> (text: String)
    ensures
        text@ == source(*regex),
{
    regex.to_string()
}

/// Error code: the value does not match the specified pattern (`Pattern` constraint)
pub const INVALID_PATTERN: &'static str = "invalid-pattern";

/// The value must match a regular expression.
#[derive(Debug, Clone)]
pub struct Pattern(pub Regex);

impl Pattern {
    /// The validation of a text of which it is known whether the pattern matches it.
    ///
    /// A text that the pattern does not match is reported with the text as the actual
    /// value and the given source of the pattern as the expected value.
    pub fn matched<X: Into<FieldName>>(value: String, name: X, matched: bool, source: String) -> (validation:
        Validation<Pattern, String>)
        ensures
            single(
                value,
                validation@,
                !matched,
                |violation: ConstraintViolation|
                    reports_field(violation, INVALID_PATTERN, name) && violation.field().actual
                        == Some(Value::String(value)) && violation.field().expected == Some(
                        Value::String(source),
                    ),
            ),
    {
        if matched {
            Validation::success(value)
        } else {
            Validation::failure(vec![invalid_value(INVALID_PATTERN, name, value, source)])
        }
    }
}

impl Validate<Pattern, FieldName> for String {
    /// A text that the pattern does not match is reported with the text as the actual
    /// value and the source of the pattern as the expected value.
    fn validate<X: Into<FieldName>>(self, name: X, constraint: &Pattern) -> (validation: Validation<
        Pattern,
        Self,
    >)
        ensures
            single(
                self,
                validation@,
                !matches(constraint.0, self@),
                |violation: ConstraintViolation|
                    reports_field(violation, INVALID_PATTERN, name) && violation.field().actual
                        == Some(Value::String(self)) && (
                    violation.field().expected matches Some(Value::String(text)) && text@ == source(
                        constraint.0,
                    )),
            ),
    {
        let matched = is_match(&constraint.0, self.as_str());
        let source = source_of(&constraint.0);
        Pattern::matched(self, name, matched, source)
    }
}

} // verus!
