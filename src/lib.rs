//! Process-lifecycle utilities: PID marker files, symbolic signals, signal
//! watching decisions and bounded process termination, plus small string,
//! path and format helpers.

pub mod text;
pub mod process;
pub mod urn_utils;
pub mod str_utils;
pub mod file_utils;
pub mod time_utils;
pub mod error;
pub mod serde;
pub mod dns_utils;
