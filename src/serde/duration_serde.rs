//! A duration written as whole seconds (`5s`) and read in any form that
//! `humantime` reads (`5s`, `3m`, `6h`).

use crate::serde::forms::{
    duration_admitted, humantime_duration, plain_secs_value, read_duration, secs_string,
    secs_text, FormatError, HumanDuration,
};
use vstd::prelude::*;

verus! {

/// The written form of `dur`: its whole seconds followed by `s`.
pub fn serialize(dur: &HumanDuration) -> (r: String)
    ensures
        r@ == secs_text(*dur),
{
    secs_string(dur)
}

/// Reads a duration: text that is neither one whole-seconds component nor
/// within `MAX_DURATION_DIGITS` digits fails with `DurationTooLong`; text
/// that `humantime` cannot read fails with `InvalidDuration`. What
/// `serialize` writes reads back as its whole seconds.
pub fn deserialize(text: &str) -> (r: Result<HumanDuration, FormatError>)
    ensures
        !duration_admitted(text@) ==> (r matches Err(FormatError::DurationTooLong(t)) && t@
            == text@),
        duration_admitted(text@) ==> match humantime_duration(text@) {
            Some(d) => r matches Ok(x) && x == d,
            None => r matches Err(FormatError::InvalidDuration(_)),
        },
        plain_secs_value(text@) matches Some(v) ==> (r matches Ok(x) && x.secs == v && x.nanos == 0),
{
    read_duration(text)
}

} // verus!
