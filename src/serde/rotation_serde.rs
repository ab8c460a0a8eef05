//! How often a log file is rolled over, written as a lower-case word and
//! read from that word in any case, with surrounding white space.

use crate::serde::forms::FormatError;
use crate::text::{lower_of, str_eq, to_lowercase, trim, trimmed};
use vstd::prelude::*;
use vstd::string::*;

verus! {

/// How often a log file is rolled over.
#[derive(Debug, Clone, Copy, PartialEq, Eq)]
pub enum Rotation {
    Weekly,
    Daily,
    Hourly,
    Minutely,
    Never,
}

impl Rotation {
    pub open spec fn spec_word(self) -> Seq<char> {
        match self {
            Rotation::Weekly => "weekly"@,
            Rotation::Daily => "daily"@,
            Rotation::Hourly => "hourly"@,
            Rotation::Minutely => "minutely"@,
            Rotation::Never => "never"@,
        }
    }
}

/// The rotation that a lower-case word names, if any.
pub open spec fn rotation_named(s: Seq<char>) -> Option<Rotation> {
    if s == "weekly"@ {
        Some(Rotation::Weekly)
    } else if s == "daily"@ {
        Some(Rotation::Daily)
    } else if s == "hourly"@ {
        Some(Rotation::Hourly)
    } else if s == "minutely"@ {
        Some(Rotation::Minutely)
    } else if s == "never"@ {
        Some(Rotation::Never)
    } else {
        None
    }
}

/// The written form of `value`: its lower-case word.
pub fn serialize(value: &Rotation) -> (r: &'static str)
    ensures
        r@ == value.spec_word(),
{
    match value {
        Rotation::Weekly => "weekly",
        Rotation::Daily => "daily",
        Rotation::Hourly => "hourly",
        Rotation::Minutely => "minutely",
        Rotation::Never => "never",
    }
}

/// The rotation that a trimmed, lower-cased word names, or `InvalidRotation`
/// carrying the word.
pub fn rotation_for_word(word: &str) -> (r: Result<Rotation, FormatError>)
    ensures
        match rotation_named(word@) {
            Some(x) => r matches Ok(y) && y == x,
            None => r matches Err(FormatError::InvalidRotation(t)) && t@ == word@,
        },
{
    if str_eq(word, "weekly") {
        Ok(Rotation::Weekly)
    } else if str_eq(word, "daily") {
        Ok(Rotation::Daily)
    } else if str_eq(word, "hourly") {
        Ok(Rotation::Hourly)
    } else if str_eq(word, "minutely") {
        Ok(Rotation::Minutely)
    } else if str_eq(word, "never") {
        Ok(Rotation::Never)
    } else {
        Err(FormatError::InvalidRotation(String::from_str(word)))
    }
}

/// Reads a rotation from its word, trimmed and read case-insensitively;
/// other text fails with `InvalidRotation`, carrying the trimmed, lower-cased
/// text.
pub fn deserialize(text: &str) -> (r: Result<Rotation, FormatError>)
    ensures
        match rotation_named(lower_of(trimmed(text@))) {
            Some(x) => r matches Ok(y) && y == x,
            None => r matches Err(FormatError::InvalidRotation(t)) && t@ == lower_of(
                trimmed(text@),
            ),
        },
{
    let word = to_lowercase(trim(text));
    rotation_for_word(word.as_str())
}

} // verus!
