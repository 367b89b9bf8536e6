//! The time of day.

use std::time::{Duration, SystemTime, SystemTimeError, UNIX_EPOCH};
use vstd::prelude::*;

use crate::error::PhraseError;

verus! {

/// A reading of the system clock.
#[verifier::external_type_specification]
#[verifier::external_body]
pub struct ExSystemTime(SystemTime);

/// What comes where one reading is not later than another.
#[verifier::external_type_specification]
#[verifier::external_body]
pub struct ExSystemTimeError(SystemTimeError);

/// `SystemTime::now`: whatever the system clock shows.
#[verifier::external_body]
fn system_time() -> (now: SystemTime) {
    SystemTime::now()
}

/// `SystemTime::duration_since` for the Unix epoch: nothing is stated of the time
/// that has passed.
#[verifier::external_body]
fn since_epoch(now: SystemTime) -> (passed: Result<Duration, SystemTimeError>) {
    now.duration_since(UNIX_EPOCH)
}

/// `Duration::as_millis`: nothing is stated of the number.
#[verifier::external_body]
fn whole_millis(passed: Duration) -> (millis: u128) {
    passed.as_millis()
}

/// A number of milliseconds in 64 bits; what does not fit is cut off.
pub fn low_millis(millis: u128) -> (ms: u64)
    ensures
        ms == millis % 0x1_0000_0000_0000_0000,
{
    assert(millis as u64 == millis % 0x1_0000_0000_0000_0000) by (bit_vector);
    #[verifier::truncate]
    let ms: u64 = millis as u64;
    ms
}

/// What a reading of the clock comes to: the milliseconds since the Unix epoch in
/// 64 bits, or `PhraseError::ClockBeforeEpoch` where the clock stands before it.
pub fn epoch_ms(since_epoch: Option<u128>) -> (ms: Result<u64, PhraseError>)
    ensures
        ms == match since_epoch {
            Some(millis) => Ok::<u64, PhraseError>((millis % 0x1_0000_0000_0000_0000) as u64),
            None => Err(PhraseError::ClockBeforeEpoch),
        },
{
    match since_epoch {
        Some(millis) => Ok(low_millis(millis)),
        None => Err(PhraseError::ClockBeforeEpoch),
    }
}

/// The present time in milliseconds since the Unix epoch. Nothing is stated of the
/// time itself.
pub fn now_ms() -> (ms: Result<u64, PhraseError>)
    ensures
        ms is Err ==> ms == Err::<u64, PhraseError>(PhraseError::ClockBeforeEpoch),
{
    match since_epoch(system_time()) {
        Ok(passed) => epoch_ms(Some(whole_millis(passed))),
        Err(_) => epoch_ms(None),
    }
}

} // verus!
