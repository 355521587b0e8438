//! Wall-clock milliseconds since the Unix epoch.

use vstd::prelude::*;

verus! {

/// Declares `std::time::SystemTime` to Verus as an opaque type.
#[verifier::external_type_specification]
#[verifier::external_body]
pub struct ExSystemTime(std::time::SystemTime);

/// Calls `std::time::SystemTime::now`. Nothing is claimed of the reading.
#[verifier::external_body]
fn system_time_now() -> std::time::SystemTime {
    std::time::SystemTime::now()
}

/// Calls `SystemTime::duration_since(UNIX_EPOCH)` and keeps the `Ok` value;
/// `None` when the reading lies before the epoch. Nothing more is claimed.
#[verifier::external_body]
fn since_unix_epoch(t: &std::time::SystemTime) -> Option<std::time::Duration> {
    t.duration_since(std::time::UNIX_EPOCH).ok()
}

/// Calls `Duration::as_millis`. Nothing is claimed (`Duration` is opaque here).
#[verifier::external_body]
fn duration_millis(d: &std::time::Duration) -> u128 {
    d.as_millis()
}

/// Calls `Duration::as_secs`. Nothing is claimed (`Duration` is opaque here).
#[verifier::external_body]
fn duration_secs(d: &std::time::Duration) -> u64 {
    d.as_secs()
}

/// Calls `Duration::subsec_nanos`. Claimed, as its documentation says: the
/// fractional part of a second, always less than one billion.
#[verifier::external_body]
fn duration_subsec_nanos(d: &std::time::Duration) -> (r: u32)
    ensures
        r < 1_000_000_000,
{
    d.subsec_nanos()
}

/// The system clock's reading as whole seconds and nanoseconds since the Unix
/// epoch, or `None` when it reads before the epoch.
pub fn time_since_epoch() -> (r: Option<(u64, u32)>)
    ensures
        r matches Some(reading) ==> reading.1 < 1_000_000_000,
{
    let now = system_time_now();
    match since_unix_epoch(&now) {
        Some(d) => Some((duration_secs(&d), duration_subsec_nanos(&d))),
        None => None,
    }
}

/// Milliseconds since the epoch as a `u64`: the elapsed milliseconds converted
/// the way `as` does (truncation), or 0 when the clock reads before the epoch.
pub fn millis_or_zero(elapsed_ms: Option<u128>) -> (r: u64)
    ensures
        match elapsed_ms {
            Some(ms) => r == ms as u64,
            None => r == 0,
        },
{
    match elapsed_ms {
        Some(ms) => ms as u64,
        None => 0,
    }
}

/// The current time in milliseconds since the Unix epoch, or 0 when the clock
/// reads before the epoch. The value is `millis_or_zero` of a clock reading;
/// since every `u64` is the truncated millisecond count of some reading, no
/// clause on it is given.
pub fn now_ms() -> u64 {
    let now = system_time_now();
    let elapsed = match since_unix_epoch(&now) {
        Some(d) => Some(duration_millis(&d)),
        None => None,
    };
    millis_or_zero(elapsed)
}

} // verus!
