//! Wall-clock timestamps.

use vstd::prelude::*;

verus! {

/// Relies on `SystemTime::now().duration_since(UNIX_EPOCH)` and
/// `Duration::as_millis`: milliseconds since the Unix epoch, or `None` where
/// the clock reads before it. The value depends on the clock.
#[verifier::external_body]
fn millis_since_epoch() -> (r: Option<u128>) {
    std::time::SystemTime::now().duration_since(std::time::UNIX_EPOCH).ok().map(|d| d.as_millis())
}

/// Milliseconds since the Unix epoch by the system clock; 0 where the clock
/// reads before the epoch.
pub fn get_current_timestamp() -> (r: u128) {
    match millis_since_epoch() {
        Some(ms) => ms,
        None => 0,
    }
}

} // verus!
