//! The wall clock, read for the ids of new services.

use vstd::prelude::*;

verus! {

#[verifier::external_type_specification]
#[verifier::external_body]
pub struct ExSystemTime(std::time::SystemTime);

#[verifier::external_type_specification]
#[verifier::external_body]
pub struct ExSystemTimeError(std::time::SystemTimeError);

/// Calls `std::time::SystemTime::now`. The time read is not stated.
#[verifier::external_body]
fn system_time_now() -> std::time::SystemTime {
    std::time::SystemTime::now()
}

/// Calls `SystemTime::duration_since` with `UNIX_EPOCH`; it fails for a time
/// before the epoch. The duration is not stated.
#[verifier::external_body]
fn since_unix_epoch(t: &std::time::SystemTime) -> Result<core::time::Duration, std::time::SystemTimeError> {
    t.duration_since(std::time::UNIX_EPOCH)
}

/// Calls `Duration::as_millis`. The count is not stated.
#[verifier::external_body]
fn whole_millis(d: &core::time::Duration) -> u128 {
    d.as_millis()
}

/// The stamp for `elapsed_millis` milliseconds since the Unix epoch: the count
/// cut to its low 64 bits, and zero when the clock read lies before the epoch
/// (`None`).
pub fn epoch_millis_stamp(elapsed_millis: Option<u128>) -> (r: u64)
    ensures
        r == match elapsed_millis {
            Some(ms) => ms as u64,
            None => 0u64,
        },
{
    match elapsed_millis {
        Some(ms) => ms as u64,
        None => 0,
    }
}

/// Milliseconds since the Unix epoch, cut to 64 bits; zero for a clock set
/// before the epoch. The time read is the clock's, so no value is promised.
pub fn chrono_now() -> u64 {
    let now = system_time_now();
    let elapsed = match since_unix_epoch(&now) {
        Ok(d) => Some(whole_millis(&d)),
        Err(_) => None,
    };
    epoch_millis_stamp(elapsed)
}

} // verus!
