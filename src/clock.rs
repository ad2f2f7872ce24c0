//! The sender's wall clock, in milliseconds since the Unix epoch.
use vstd::prelude::*;
use std::time::{Duration, SystemTime};

verus! {

/// std's wall-clock time, carried through without looking inside.
#[verifier::external_type_specification]
#[verifier::external_body]
pub struct ExSystemTime(SystemTime);

/// Relies on std::time::SystemTime::now: reads the system clock. Nothing is
/// known of the value read.
pub assume_specification[ SystemTime::now ]() -> SystemTime;

/// Relies on std::time::Duration::as_millis: the whole milliseconds of a
/// duration. Nothing more is stated of it here.
pub assume_specification[ Duration::as_millis ](d: &Duration) -> u128;

/// Relies on std::time::SystemTime::duration_since with `UNIX_EPOCH`: the
/// time elapsed since the epoch, or `None` when `t` lies before it.
#[verifier::external_body]
fn since_unix_epoch(t: &SystemTime) -> Option<Duration> {
    t.duration_since(std::time::UNIX_EPOCH).ok()
}

/// Milliseconds since the Unix epoch by the system clock; `0` when the
/// clock reads before the epoch, and `u64::MAX` past what a `u64` holds.
pub fn get_current_timestamp() -> u64 {
    let now = SystemTime::now();
    match since_unix_epoch(&now) {
        Some(d) => {
            let ms = d.as_millis();
            if ms > u64::MAX as u128 {
                u64::MAX
            } else {
                ms as u64
            }
        },
        None => 0,
    }
}

} // verus!
