//! The properties of the types of `std`.

use crate::property::{
    is_empty_value_returns, HasCharCount, HasCheckedValue, HasEmptyValue, HasLength, HasMember,
    HasZeroValue,
};
use crate::text::is_part;
use vstd::prelude::*;
use vstd::utf8::encode_utf8;

verus! {

impl HasCheckedValue for bool {
    fn is_checked_value(&self) -> (checked: bool)
        ensures
            checked == *self,
    {
        *self
    }
}

impl HasEmptyValue for String {
    fn is_empty_value(&self) -> (empty: bool)
        ensures
            empty == (self@.len() == 0),
    {
        self.as_str().is_empty()
    }
}

impl HasEmptyValue for &str {
    fn is_empty_value(&self) -> (empty: bool)
        ensures
            empty == (self@.len() == 0),
    {
        self.is_empty()
    }
}

impl<T> HasEmptyValue for Vec<T> {
    fn is_empty_value(&self) -> (empty: bool)
        ensures
            empty == (self@.len() == 0),
    {
        self.is_empty()
    }
}

impl<T> HasEmptyValue for &[T] {
    fn is_empty_value(&self) -> (empty: bool)
        ensures
            empty == (self@.len() == 0),
    {
        self.len() == 0
    }
}

impl<T: HasEmptyValue> HasEmptyValue for Option<T> {
    fn is_empty_value(&self) -> (empty: bool)
        ensures
            (match self {
                Some(value) => is_empty_value_returns(*value, empty),
                None => empty,
            }),
    {
        match self {
            Some(value) => value.is_empty_value(),
            None => true,
        }
    }
}

impl HasLength for String {
    fn length(&self) -> (length: usize)
        ensures
            length == encode_utf8(self@).len() as usize,
    {
        self.as_str().len()
    }
}

impl HasLength for &str {
    fn length(&self) -> (length: usize)
        ensures
            length == encode_utf8(self@).len() as usize,
    {
        self.len()
    }
}

impl<T> HasLength for Vec<T> {
    fn length(&self) -> (length: usize)
        ensures
            length == self@.len(),
    {
        self.len()
    }
}

impl<T> HasLength for &[T] {
    fn length(&self) -> (length: usize)
        ensures
            length == self@.len(),
    {
        self.len()
    }
}

impl HasCharCount for String {
    fn char_count(&self) -> (count: usize)
        ensures
            count == self@.len(),
    {
        self.as_str().unicode_len()
    }
}

impl HasCharCount for &str {
    fn char_count(&self) -> (count: usize)
        ensures
            count == self@.len(),
    {
        self.unicode_len()
    }
}

impl HasCharCount for Vec<char> {
    fn char_count(&self) -> (count: usize)
        ensures
            count == self@.len(),
    {
        self.len()
    }
}

impl HasCharCount for &[char] {
    fn char_count(&self) -> (count: usize)
        ensures
            count == self@.len(),
    {
        self.len()
    }
}

/// `str::contains` with a string slice as the pattern: whether the part occurs in the
/// text.
#[verifier::external_body]
fn contains(text: &str, part: &str) -> (found: bool)
    ensures
        found == is_part(part@, text@),
{
    text.contains(part)
}

impl HasMember<String> for String {
    fn has_member(&self, element: &String) -> (member: bool)
        ensures
            member == is_part(element@, self@),
    {
        contains(self.as_str(), element.as_str())
    }
}

impl HasZeroValue for i8 {
    fn is_zero_value(&self) -> (zero: bool)
        ensures
            zero == (*self == 0),
    {
        *self == 0
    }
}

impl HasZeroValue for i16 {
    fn is_zero_value(&self) -> (zero: bool)
        ensures
            zero == (*self == 0),
    {
        *self == 0
    }
}

impl HasZeroValue for i32 {
    fn is_zero_value(&self) -> (zero: bool)
        ensures
            zero == (*self == 0),
    {
        *self == 0
    }
}

impl HasZeroValue for i64 {
    fn is_zero_value(&self) -> (zero: bool)
        ensures
            zero == (*self == 0),
    {
        *self == 0
    }
}

impl HasZeroValue for i128 {
    fn is_zero_value(&self) -> (zero: bool)
        ensures
            zero == (*self == 0),
    {
        *self == 0
    }
}

impl HasZeroValue for u8 {
    fn is_zero_value(&self) -> (zero: bool)
        ensures
            zero == (*self == 0),
    {
        *self == 0
    }
}

impl HasZeroValue for u16 {
    fn is_zero_value(&self) -> (zero: bool)
        ensures
            zero == (*self == 0),
    {
        *self == 0
    }
}

impl HasZeroValue for u32 {
    fn is_zero_value(&self) -> (zero: bool)
        ensures
            zero == (*self == 0),
    {
        *self == 0
    }
}

impl HasZeroValue for u64 {
    fn is_zero_value(&self) -> (zero: bool)
        ensures
            zero == (*self == 0),
    {
        *self == 0
    }
}

impl HasZeroValue for u128 {
    fn is_zero_value(&self) -> (zero: bool)
        ensures
            zero == (*self == 0),
    {
        *self == 0
    }
}

impl HasZeroValue for isize {
    fn is_zero_value(&self) -> (zero: bool)
        ensures
            zero == (*self == 0),
    {
        *self == 0
    }
}

impl HasZeroValue for usize {
    fn is_zero_value(&self) -> (zero: bool)
        ensures
            zero == (*self == 0),
    {
        *self == 0
    }
}

} // verus!
