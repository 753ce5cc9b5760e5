//! The wall clock.

use std::time::Duration;
use vstd::prelude::*;

verus! {

/// Calls `std::time::SystemTime::elapsed` on `UNIX_EPOCH`: the time since
/// the epoch, or `None` when the clock reads before it. Nothing is claimed
/// of the value: it is the machine's clock, and two calls may disagree in
/// any way.
#[verifier::external_body]
fn time_since_epoch() -> (r: Option<Duration>) {
    match std::time::UNIX_EPOCH.elapsed() {
        Ok(d) => Some(d),
        Err(_) => None,
    }
}

/// Calls `std::time::Duration::as_secs`: the whole seconds of `d`. Nothing
/// is claimed of the value, as a `Duration` is opaque here.
#[verifier::external_body]
fn whole_seconds(d: &Duration) -> (r: u64) {
    d.as_secs()
}

/// Whole seconds since the UNIX epoch, or `None` when the clock reads
/// before it.
pub(crate) fn unix_time_secs() -> (r: Option<u64>) {
    match time_since_epoch() {
        Some(d) => Some(whole_seconds(&d)),
        None => None,
    }
}

} // verus!
