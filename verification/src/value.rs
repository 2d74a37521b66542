//! The tagged value that a violation reports.

use bigdecimal::BigDecimal;
use chrono::NaiveDate;
use vstd::prelude::*;
use vstd::std_specs::convert::{FromSpecImpl, TryFromSpecImpl};

verus! {

/// `bigdecimal::BigDecimal`, carried through as an opaque value.
#[verifier::external_type_specification]
#[verifier::external_body]
pub struct ExBigDecimal(bigdecimal::BigDecimal);

/// `chrono::NaiveDate`, carried through as an opaque value.
#[verifier::external_type_specification]
#[verifier::external_body]
pub struct ExNaiveDate(chrono::NaiveDate);

/// `Clone::clone` of `bigdecimal::BigDecimal`: the copy is the same decimal.
pub assume_specification[ <bigdecimal::BigDecimal as Clone>::clone ](
    decimal: &bigdecimal::BigDecimal,
) -> (copy: bigdecimal::BigDecimal)
    ensures
        copy == *decimal,
;

/// `Clone::clone` of `chrono::NaiveDate`: the copy is the same date.
pub assume_specification[ <chrono::NaiveDate as Clone>::clone ](date: &chrono::NaiveDate) -> (copy:
    chrono::NaiveDate)
    ensures
        copy == *date,
;

/// The message of the error that a 64-bit unsigned integer above `i64::MAX` is rejected with.
pub const U64_TOO_BIG: &'static str = "u64 value too big to be converted to i64";

/// The message of the error that a `usize` above `i64::MAX` is rejected with.
pub const USIZE_TOO_BIG: &'static str = "usize value too big to be converted to i64";

/// A value of one of the types that a violation can report.
///
/// A `Value` is data for reporting only: the library never computes with it.
///
/// The payload of `Float` and `Double` is the IEEE 754 bit pattern of the number
/// (`to_bits` of the 32-bit and the 64-bit float). Two such values are equal when their
/// bit patterns are. The payload of `DateTime` is a point in time in UTC: the whole seconds
/// since the Unix epoch and the nanoseconds since the last whole second.
#[derive(Debug, Clone, PartialEq)]
pub enum Value {
    /// a string value
    String(String),
    /// a 32bit signed integer value
    Integer(i32),
    /// a 64bit signed integer value
    Long(i64),
    /// the bits of a 32bit float value
    Float(u32),
    /// the bits of a 64bit float value
    Double(u64),
    /// a boolean value
    Boolean(bool),
    /// a decimal value
    Decimal(BigDecimal),
    /// a date value
    Date(NaiveDate),
    /// a point in time in UTC, in seconds and nanoseconds
    DateTime(i64, u32),
}

impl Value {
    /// The integer that an `Integer` or a `Long` holds.
    pub open spec fn integer(self) -> Option<int> {
        match self {
            Value::Integer(value) => Some(value as int),
            Value::Long(value) => Some(value as int),
            _ => None,
        }
    }

    /// The conversion of a 64-bit unsigned integer: a `Long` up to `i64::MAX`, an error above.
    pub open spec fn spec_try_from_u64(value: u64) -> Result<Value, &'static str> {
        if value > i64::MAX {
            Err(U64_TOO_BIG)
        } else {
            Ok(Value::Long(value as i64))
        }
    }

    /// The conversion of a `usize`: an `Integer` up to `i32::MAX`, a `Long` up to `i64::MAX`,
    /// an error above.
    pub open spec fn spec_try_from_usize(value: usize) -> Result<Value, &'static str> {
        if value <= i32::MAX {
            Ok(Value::Integer(value as i32))
        } else if value <= i64::MAX {
            Ok(Value::Long(value as i64))
        } else {
            Err(USIZE_TOO_BIG)
        }
    }
}

impl From<String> for Value {
    fn from(value: String) -> (converted: Self)
        ensures
            converted == Value::String(value),
    {
        Value::String(value)
    }
}

impl FromSpecImpl<String> for Value {
    open spec fn obeys_from_spec() -> bool {
        true
    }

    open spec fn from_spec(value: String) -> Self {
        Value::String(value)
    }
}

impl From<i32> for Value {
    fn from(value: i32) -> (converted: Self)
        ensures
            converted == Value::Integer(value),
    {
        Value::Integer(value)
    }
}

impl FromSpecImpl<i32> for Value {
    open spec fn obeys_from_spec() -> bool {
        true
    }

    open spec fn from_spec(value: i32) -> Self {
        Value::Integer(value)
    }
}

impl From<i16> for Value {
    fn from(value: i16) -> (converted: Self)
        ensures
            converted == Value::Integer(value as i32),
    {
        Value::Integer(value as i32)
    }
}

impl FromSpecImpl<i16> for Value {
    open spec fn obeys_from_spec() -> bool {
        true
    }

    open spec fn from_spec(value: i16) -> Self {
        Value::Integer(value as i32)
    }
}

impl From<u16> for Value {
    fn from(value: u16) -> (converted: Self)
        ensures
            converted == Value::Integer(value as i32),
    {
        Value::Integer(value as i32)
    }
}

impl FromSpecImpl<u16> for Value {
    open spec fn obeys_from_spec() -> bool {
        true
    }

    open spec fn from_spec(value: u16) -> Self {
        Value::Integer(value as i32)
    }
}

impl From<i8> for Value {
    fn from(value: i8) -> (converted: Self)
        ensures
            converted == Value::Integer(value as i32),
    {
        Value::Integer(value as i32)
    }
}

impl FromSpecImpl<i8> for Value {
    open spec fn obeys_from_spec() -> bool {
        true
    }

    open spec fn from_spec(value: i8) -> Self {
        Value::Integer(value as i32)
    }
}

impl From<u8> for Value {
    fn from(value: u8) -> (converted: Self)
        ensures
            converted == Value::Integer(value as i32),
    {
        Value::Integer(value as i32)
    }
}

impl FromSpecImpl<u8> for Value {
    open spec fn obeys_from_spec() -> bool {
        true
    }

    open spec fn from_spec(value: u8) -> Self {
        Value::Integer(value as i32)
    }
}

impl From<u32> for Value {
    fn from(value: u32) -> (converted: Self)
        ensures
            converted == (if value > i32::MAX {
                Value::Long(value as i64)
            } else {
                Value::Integer(value as i32)
            }),
    {
        if value > 0x7fff_ffffu32 {
            Value::Long(value as i64)
        } else {
            Value::Integer(value as i32)
        }
    }
}

impl FromSpecImpl<u32> for Value {
    open spec fn obeys_from_spec() -> bool {
        true
    }

    open spec fn from_spec(value: u32) -> Self {
        if value > i32::MAX {
            Value::Long(value as i64)
        } else {
            Value::Integer(value as i32)
        }
    }
}

impl From<i64> for Value {
    fn from(value: i64) -> (converted: Self)
        ensures
            converted == Value::Long(value),
    {
        Value::Long(value)
    }
}

impl FromSpecImpl<i64> for Value {
    open spec fn obeys_from_spec() -> bool {
        true
    }

    open spec fn from_spec(value: i64) -> Self {
        Value::Long(value)
    }
}

impl From<bool> for Value {
    fn from(value: bool) -> (converted: Self)
        ensures
            converted == Value::Boolean(value),
    {
        Value::Boolean(value)
    }
}

impl FromSpecImpl<bool> for Value {
    open spec fn obeys_from_spec() -> bool {
        true
    }

    open spec fn from_spec(value: bool) -> Self {
        Value::Boolean(value)
    }
}

impl From<BigDecimal> for Value {
    fn from(value: BigDecimal) -> (converted: Self)
        ensures
            converted == Value::Decimal(value),
    {
        Value::Decimal(value)
    }
}

impl FromSpecImpl<BigDecimal> for Value {
    open spec fn obeys_from_spec() -> bool {
        true
    }

    open spec fn from_spec(value: BigDecimal) -> Self {
        Value::Decimal(value)
    }
}

impl From<NaiveDate> for Value {
    fn from(value: NaiveDate) -> (converted: Self)
        ensures
            converted == Value::Date(value),
    {
        Value::Date(value)
    }
}

impl FromSpecImpl<NaiveDate> for Value {
    open spec fn obeys_from_spec() -> bool {
        true
    }

    open spec fn from_spec(value: NaiveDate) -> Self {
        Value::Date(value)
    }
}

impl TryFrom<u64> for Value {
    type Error = &'static str;

    fn try_from(value: u64) -> (converted: Result<Self, Self::Error>)
        ensures
            converted == Value::spec_try_from_u64(value),
    {
        if value > 0x7fff_ffff_ffff_ffffu64 {
            Err(U64_TOO_BIG)
        } else {
            Ok(Value::Long(value as i64))
        }
    }
}

impl TryFromSpecImpl<u64> for Value {
    open spec fn obeys_try_from_spec() -> bool {
        true
    }

    open spec fn try_from_spec(value: u64) -> Result<Self, Self::Error> {
        Value::spec_try_from_u64(value)
    }
}

impl TryFrom<usize> for Value {
    type Error = &'static str;

    fn try_from(value: usize) -> (converted: Result<Self, Self::Error>)
        ensures
            converted == Value::spec_try_from_usize(value),
    {
        let wide: u64 = value as u64;
        assert(wide == value);
        if wide <= 0x7fff_ffffu64 {
            Ok(Value::Integer(wide as i32))
        } else if wide <= 0x7fff_ffff_ffff_ffffu64 {
            Ok(Value::Long(wide as i64))
        } else {
            Err(USIZE_TOO_BIG)
        }
    }
}

impl TryFromSpecImpl<usize> for Value {
    open spec fn obeys_try_from_spec() -> bool {
        true
    }

    open spec fn try_from_spec(value: usize) -> Result<Self, Self::Error> {
        Value::spec_try_from_usize(value)
    }
}

} // verus!
