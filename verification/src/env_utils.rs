//! Values of configuration variables (feature flags, the database port).

use vstd::prelude::*;
use crate::text::{parse_bool, parse_i32, parse_u16, parsed_bool, parsed_i32, parsed_u16};

verus! {

/// A type whose values are read from the text of a configuration variable,
/// the way `str::parse` reads them.
pub trait EnvValue: Sized {
    /// The value that `text` denotes, if any.
    spec fn parsed_from(text: Seq<char>) -> Option<Self>;

    /// Reads a value from `text`.
    fn parse_value(text: &str) -> (r: Option<Self>)
        ensures
            r == Self::parsed_from(text@),
    ;
}

impl EnvValue for bool {
    open spec fn parsed_from(text: Seq<char>) -> Option<bool> {
        parsed_bool(text)
    }

    fn parse_value(text: &str) -> (r: Option<bool>) {
        parse_bool(text)
    }
}

impl EnvValue for u16 {
    open spec fn parsed_from(text: Seq<char>) -> Option<u16> {
        parsed_u16(text)
    }

    fn parse_value(text: &str) -> (r: Option<u16>) {
        parse_u16(text)
    }
}

impl EnvValue for i32 {
    open spec fn parsed_from(text: Seq<char>) -> Option<i32> {
        parsed_i32(text)
    }

    fn parse_value(text: &str) -> (r: Option<i32>) {
        parse_i32(text)
    }
}

/// The value of a configuration variable whose text is `value`; the text must
/// denote a value of `T`.
pub fn as_parsed<T: EnvValue>(value: &str) -> (r: T)
    requires
        T::parsed_from(value@) is Some,
    ensures
        T::parsed_from(value@) == Some(r),
{
    T::parse_value(value).unwrap()
}

} // verus!
