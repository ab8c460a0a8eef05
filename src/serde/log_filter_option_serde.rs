//! An optional log level filter, written as its lower-case name (`info`)
//! and read from its name in any case.

use crate::serde::forms::FormatError;
use crate::text::{lower_of, str_eq, to_lowercase};
use log::LevelFilter;
use vstd::prelude::*;
use vstd::string::*;

verus! {

/// `log::LevelFilter`, whose six variants carry no data.
#[verifier::external_type_specification]
pub struct ExLevelFilter(log::LevelFilter);

/// The lower-case name of a level filter.
pub open spec fn level_name(l: LevelFilter) -> Seq<char> {
    match l {
        LevelFilter::Off => "off"@,
        LevelFilter::Error => "error"@,
        LevelFilter::Warn => "warn"@,
        LevelFilter::Info => "info"@,
        LevelFilter::Debug => "debug"@,
        LevelFilter::Trace => "trace"@,
    }
}

/// The level filter that a lower-case name names, if any.
pub open spec fn level_named(s: Seq<char>) -> Option<LevelFilter> {
    if s == "off"@ {
        Some(LevelFilter::Off)
    } else if s == "error"@ {
        Some(LevelFilter::Error)
    } else if s == "warn"@ {
        Some(LevelFilter::Warn)
    } else if s == "info"@ {
        Some(LevelFilter::Info)
    } else if s == "debug"@ {
        Some(LevelFilter::Debug)
    } else if s == "trace"@ {
        Some(LevelFilter::Trace)
    } else {
        None
    }
}

/// The written form of `level`: its lower-case name, or nothing.
pub fn serialize(level: &Option<LevelFilter>) -> (r: Option<&'static str>)
    ensures
        match level {
            Some(l) => r matches Some(t) && t@ == level_name(*l),
            None => r is None,
        },
{
    match level {
        Some(LevelFilter::Off) => Some("off"),
        Some(LevelFilter::Error) => Some("error"),
        Some(LevelFilter::Warn) => Some("warn"),
        Some(LevelFilter::Info) => Some("info"),
        Some(LevelFilter::Debug) => Some("debug"),
        Some(LevelFilter::Trace) => Some("trace"),
        None => None,
    }
}

/// The level filter that a lower-cased name names, or `UnknownLogLevel`
/// carrying `written`, the name as it was written.
pub fn level_for_name(lowered: &str, written: &str) -> (r: Result<LevelFilter, FormatError>)
    ensures
        match level_named(lowered@) {
            Some(l) => r matches Ok(x) && x == l,
            None => r matches Err(FormatError::UnknownLogLevel(t)) && t@ == written@,
        },
{
    if str_eq(lowered, "off") {
        Ok(LevelFilter::Off)
    } else if str_eq(lowered, "error") {
        Ok(LevelFilter::Error)
    } else if str_eq(lowered, "warn") {
        Ok(LevelFilter::Warn)
    } else if str_eq(lowered, "info") {
        Ok(LevelFilter::Info)
    } else if str_eq(lowered, "debug") {
        Ok(LevelFilter::Debug)
    } else if str_eq(lowered, "trace") {
        Ok(LevelFilter::Trace)
    } else {
        Err(FormatError::UnknownLogLevel(String::from_str(written)))
    }
}

/// Reads an optional level filter: nothing reads as `None`; a name is read
/// case-insensitively; any other text fails with `UnknownLogLevel`.
pub fn deserialize(text: Option<&str>) -> (r: Result<Option<LevelFilter>, FormatError>)
    ensures
        match text {
            None => r matches Ok(None),
            Some(t) => match level_named(lower_of(t@)) {
                Some(l) => r matches Ok(Some(x)) && x == l,
                None => r matches Err(FormatError::UnknownLogLevel(m)) && m@ == t@,
            },
        },
{
    match text {
        None => Ok(None),
        Some(t) => {
            let lowered = to_lowercase(t);
            match level_for_name(lowered.as_str(), t) {
                Ok(l) => Ok(Some(l)),
                Err(e) => Err(e),
            }
        },
    }
}

} // verus!
