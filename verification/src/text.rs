//! Names, codes and messages are texts that are borrowed or owned: `Cow<'static, str>`.
//!
//! They are made by conversion, with `into`. The relation `converts` says what a
//! conversion returned. What the conversions of `std` into a text return is assumed here.

use std::borrow::Cow;
use vstd::prelude::*;

verus! {

/// Whether `to` is what the conversion of `from` returned.
pub open spec fn converts<A: Into<B>, B>(from: A, to: B) -> bool {
    call_ensures(<A as Into<B>>::into, (from,), to)
}

/// Whether the part occurs in the text: at some place the text reads as the part does.
pub open spec fn is_part(part: Seq<char>, text: Seq<char>) -> bool {
    exists|start: int|
        0 <= start && start + part.len() <= text.len() && #[trigger] text.subrange(
            start,
            start + part.len(),
        ) == part
}

/// `From<&str>` of `std::borrow::Cow<str>`: the string slice, borrowed.
pub assume_specification<'a>[ <std::borrow::Cow<'a, str> as std::convert::From<&'a str>>::from ](
    text: &'a str,
) -> (cow: std::borrow::Cow<'a, str>)
    ensures
        cow == Cow::<str>::Borrowed(text),
;

/// `From<String>` of `std::borrow::Cow<str>`: the string, owned.
pub assume_specification<'a>[ <std::borrow::Cow<'a, str> as std::convert::From<String>>::from ](
    text: String,
) -> (cow: std::borrow::Cow<'a, str>)
    ensures
        cow == Cow::<str>::Owned(text),
;

/// `Clone::clone` of `std::borrow::Cow`: a borrowed value stays the same borrowed value, an
/// owned one stays owned.
pub assume_specification<'a, B>[ <std::borrow::Cow<'a, B> as Clone>::clone ](
    cow: &std::borrow::Cow<'a, B>,
) -> (copy: std::borrow::Cow<'a, B>) where B: std::borrow::ToOwned + ?Sized
    ensures
        cow is Borrowed ==> copy == *cow,
        cow is Owned ==> copy is Owned,
;

/// The text as a string slice.
pub fn as_str<'a>(text: &'a Cow<'static, str>) -> (slice: &'a str)
    ensures
        slice@ == text@,
{
    match text {
        Cow::Borrowed(borrowed) => borrowed,
        Cow::Owned(owned) => owned.as_str(),
    }
}

/// A copy of the text: borrowed where the text is borrowed, owned where it is owned.
pub fn clone_text(text: &Cow<'static, str>) -> (copy: Cow<'static, str>)
    ensures
        copy == *text,
{
    match text {
        Cow::Borrowed(borrowed) => Cow::Borrowed(borrowed),
        Cow::Owned(owned) => Cow::Owned(owned.clone()),
    }
}

} // verus!
