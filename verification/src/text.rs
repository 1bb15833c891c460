//! Small operations on text.
use vstd::prelude::*;

verus! {

/// The characters of an optional text.
pub open spec fn optional_text(text: Option<String>) -> Option<Seq<char>> {
    match text {
        Some(present) => Some(present@),
        None => None,
    }
}

/// The text if there is one, else `default`.
pub open spec fn text_or(text: Option<Seq<char>>, default: Seq<char>) -> Seq<char> {
    match text {
        Some(present) => present,
        None => default,
    }
}

/// Whether two texts hold the same characters.
pub fn same_text(left: &str, right: &str) -> (same: bool)
    ensures
        same == (left@ == right@),
{
    left.to_owned() == right.to_owned()
}

/// Gives `text` if it is there, else a copy of `default`.
pub fn unwrap_text_or(text: Option<String>, default: &str) -> (unwrapped: String)
    ensures
        unwrapped@ == text_or(optional_text(text), default@),
{
    match text {
        Some(present) => present,
        None => default.to_owned(),
    }
}

/// Gives `flag` if it is there, else `false`.
pub fn unwrap_flag(flag: Option<bool>) -> (unwrapped: bool)
    ensures
        unwrapped == (flag == Some(true)),
{
    match flag {
        Some(present) => present,
        None => false,
    }
}

} // verus!
