//! Conversions between owned and borrowed text.

use std::borrow::Cow;
use vstd::prelude::*;

verus! {

/// `String::from` of a string slice. Claimed: the string holds the text of the slice.
pub assume_specification<'a>[ <String as From<&'a str>>::from ](s: &str) -> (owned: String)
    ensures
        owned@ == s@,
;

/// `From::from` of a value into its own type. Claimed: the value comes back unchanged.
pub assume_specification<T>[ <T as From<T>>::from ](t: T) -> (same: T)
    ensures
        same == t,
;

/// `Cow::from` of a string slice. Claimed: it holds the text of the slice.
pub assume_specification<'a>[ <Cow<'a, str> as From<&'a str>>::from ](s: &'a str) -> (cow: Cow<
    'a,
    str,
>)
    ensures
        cow@ == s@,
;

/// `Cow::from` of a string. Claimed: it holds the text of the string.
pub assume_specification<'a>[ <Cow<'a, str> as From<String>>::from ](s: String) -> (cow: Cow<
    'a,
    str,
>)
    ensures
        cow@ == s@,
;

/// The text that a borrowed or owned text holds.
pub(crate) fn cow_str<'a>(text: &'a Cow<'static, str>) -> (s: &'a str)
    ensures
        s@ == text@,
{
    match text {
        Cow::Borrowed(s) => s,
        Cow::Owned(s) => s.as_str(),
    }
}

/// The same borrowed or owned text.
pub(crate) fn cow_clone(text: &Cow<'static, str>) -> (copy: Cow<'static, str>)
    ensures
        copy@ == text@,
{
    match text {
        Cow::Borrowed(s) => Cow::Borrowed(*s),
        Cow::Owned(s) => Cow::Owned(s.clone()),
    }
}

/// The text that a borrowed or owned text holds, owned.
pub(crate) fn cow_into_string(text: Cow<'static, str>) -> (s: String)
    ensures
        s@ == text@,
{
    match text {
        Cow::Borrowed(s) => String::from(s),
        Cow::Owned(s) => s,
    }
}

} // verus!
