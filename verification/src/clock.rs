//! The cluster clock.

use vstd::prelude::*;
use anchor_lang::solana_program::clock::Clock;
use anchor_lang::solana_program::program_error::ProgramError;
use anchor_lang::solana_program::sysvar::Sysvar;
use crate::errors::DenftError;

verus! {

/// The runtime's error type, as `Sysvar::get` returns it. Opaque here.
#[verifier::external_type_specification]
#[verifier::external_body]
pub struct ExProgramError(ProgramError);

/// Calls `Clock::get` and hands out the clock's `unix_timestamp`. Trusted,
/// and nothing is claimed of the outcome: the time is whatever the runtime
/// says, and outside a running program the call fails.
#[verifier::external_body]
fn clock_unix_timestamp() -> (now: Result<i64, ProgramError>) {
    Clock::get().map(|clock| clock.unix_timestamp)
}

/// The current time of the cluster in seconds since the epoch. Fails with
/// `ClockUnavailable`, and with nothing else, where the runtime does not
/// provide the clock. What the runtime answered is turned into the result by
/// `timestamp_from`.
pub fn unix_timestamp() -> (now: Result<i64, DenftError>)
    ensures
        now matches Err(e) ==> e == DenftError::ClockUnavailable,
{
    timestamp_from(clock_unix_timestamp())
}

/// What a reading of the clock means to the registry: the time that was
/// read, or `ClockUnavailable` whatever the runtime's error was.
pub open spec fn spec_timestamp_from(read: Result<i64, ProgramError>) -> Result<i64, DenftError> {
    match read {
        Ok(seconds) => Ok(seconds),
        Err(_) => Err(DenftError::ClockUnavailable),
    }
}

/// Turns a reading of the clock into the time, or into `ClockUnavailable`
/// where the reading failed.
pub fn timestamp_from(read: Result<i64, ProgramError>) -> (now: Result<i64, DenftError>)
    ensures
        now == spec_timestamp_from(read),
{
    match read {
        Ok(seconds) => Ok(seconds),
        Err(_) => Err(DenftError::ClockUnavailable),
    }
}

} // verus!
