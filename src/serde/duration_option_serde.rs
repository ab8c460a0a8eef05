//! An optional duration written as whole seconds (`5s`) or as nothing, and
//! read in any form that `humantime` reads.

use crate::serde::forms::{
    duration_admitted, humantime_duration, plain_secs_value, read_duration, secs_string,
    secs_text, FormatError, HumanDuration,
};
use vstd::prelude::*;

verus! {

/// The written form of `dur`: its whole seconds followed by `s`, or nothing.
pub fn serialize(dur: &Option<HumanDuration>) -> (r: Option<String>)
    ensures
        match dur {
            Some(d) => r matches Some(t) && t@ == secs_text(*d),
            None => r is None,
        },
{
    match dur {
        Some(d) => Some(secs_string(d)),
        None => None,
    }
}

/// Reads an optional duration: nothing reads as `None`; text that is
/// neither one whole-seconds component nor within `MAX_DURATION_DIGITS`
/// digits fails with `DurationTooLong`; text that `humantime` cannot read
/// fails with `InvalidDuration`. What `serialize` writes reads back as its
/// whole seconds.
pub fn deserialize(text: Option<&str>) -> (r: Result<Option<HumanDuration>, FormatError>)
    ensures
        match text {
            None => r matches Ok(None),
            Some(t) => {
                &&& !duration_admitted(t@) ==> (r matches Err(FormatError::DurationTooLong(m))
                    && m@ == t@)
                &&& duration_admitted(t@) ==> match humantime_duration(t@) {
                    Some(d) => r matches Ok(Some(x)) && x == d,
                    None => r matches Err(FormatError::InvalidDuration(_)),
                }
                &&& plain_secs_value(t@) matches Some(v) ==> (r matches Ok(Some(x)) && x.secs == v && x.nanos == 0)
            },
        },
{
    match text {
        None => Ok(None),
        Some(t) => match read_duration(t) {
            Ok(d) => Ok(Some(d)),
            Err(e) => Err(e),
        },
    }
}

} // verus!
