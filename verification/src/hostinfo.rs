//! Readings from the host environment: the clock, the host name, the
//! data directory. Each depends on the machine and the moment, so
//! nothing is promised of the values beyond their documented shape.

use vstd::prelude::*;

verus! {

/// Relies on `std::time::SystemTime::now`: the current Unix time in
/// whole seconds (zero if the clock reads before the epoch). The value
/// depends on the moment of the call; nothing is promised of it.
#[verifier::external_body]
pub fn current_timestamp() -> u64 {
    match std::time::SystemTime::now().duration_since(std::time::UNIX_EPOCH) {
        Ok(d) => d.as_secs(),
        Err(_) => 0,
    }
}

/// Relies on `hostname::get`: the machine's host name, when it is
/// available and valid Unicode. Nothing is promised of the value.
#[verifier::external_body]
pub fn get_hostname() -> Option<String> {
    hostname::get().ok().and_then(|h| h.into_string().ok())
}

/// Relies on `dirs::data_dir`: the per-user data directory, when the
/// platform defines one and its path is valid Unicode. Nothing is
/// promised of the value.
#[verifier::external_body]
pub fn data_dir() -> Option<String> {
    dirs::data_dir().and_then(|p| p.to_str().map(|s| s.to_string()))
}

/// Relies on `chrono::Utc::now` and `to_rfc3339`: the current instant
/// rendered as an RFC 3339 timestamp. The value depends on the moment of
/// the call; nothing is promised of it.
#[verifier::external_body]
pub fn now_rfc3339() -> String {
    chrono::Utc::now().to_rfc3339()
}

/// Relies on `chrono::Local::now` and `FixedOffset::local_minus_utc`:
/// the local time zone's offset from UTC in seconds, which chrono keeps
/// strictly within one day.
#[verifier::external_body]
pub fn local_offset_secs() -> (r: i32)
    ensures
        -86400 < r < 86400,
{
    chrono::Local::now().offset().local_minus_utc()
}

} // verus!
