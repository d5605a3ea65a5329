use vstd::prelude::*;
use vstd::std_specs::convert::FromSpecImpl;
use crate::parser::text::{is_alphanumeric_of, is_lowercase_of};

verus! {

/// `CharType` of the read character, which will determine how it is processed
#[derive(Clone, Copy, Debug, PartialEq, Eq, Structural)]
pub enum CharType {
    /// The character is an uppercase letter or a number.
    CapitalOrNumber,
    /// The character is a lowercase letter.
    Lowercase,
    /// We are reading before the first character of the string.
    Start,
    /// The character is a symbol.
    Symbol,
}

/// The category of a character of which it is known whether it is
/// alphanumeric and whether it is lowercase: a symbol unless it is
/// alphanumeric, then lowercase if it is, else a capital or a number.
pub open spec fn kind_of(is_alphanumeric: bool, is_lowercase: bool) -> CharType {
    if !is_alphanumeric {
        CharType::Symbol
    } else if is_lowercase {
        CharType::Lowercase
    } else {
        CharType::CapitalOrNumber
    }
}

/// The category of a character. Never `CharType::Start`, which only marks
/// the start of a scan.
pub open spec fn classify(c: char) -> CharType {
    kind_of(is_alphanumeric_of(c), is_lowercase_of(c))
}

impl CharType {
    /// The category of a character of which it is known whether it is
    /// alphanumeric and whether it is lowercase.
    pub fn of(is_alphanumeric: bool, is_lowercase: bool) -> (kind: Self)
        ensures
            kind == kind_of(is_alphanumeric, is_lowercase),
    {
        if !is_alphanumeric {
            Self::Symbol
        } else if is_lowercase {
            Self::Lowercase
        } else {
            Self::CapitalOrNumber
        }
    }
}

impl From<char> for CharType {
    fn from(value: char) -> (kind: Self) {
        Self::of(value.is_alphanumeric(), value.is_lowercase())
    }
}

impl FromSpecImpl<char> for CharType {
    open spec fn obeys_from_spec() -> bool {
        true
    }

    open spec fn from_spec(v: char) -> Self {
        classify(v)
    }
}

} // verus!
