//! The clock that stamps every write to the registry.

use anchor_lang::prelude::{Clock, SolanaSysvar};
use vstd::prelude::*;

verus! {

/// `ProgramError`, the error type of the runtime's system calls. Nothing is
/// known of a value of it here: it is only carried from the clock to the
/// request that turns it into `ClockUnavailable`.
#[verifier::external_type_specification]
#[verifier::external_body]
pub struct ExProgramError(anchor_lang::prelude::ProgramError);

/// Reads the runtime's clock through `Clock::get` and hands back the
/// `unix_timestamp` field of what it returned, or the error it returned.
///
/// Not verified, and nothing is promised of the reading: it is whatever the
/// runtime reports at the moment of the call. Where no runtime serves the
/// system call, `Clock::get` returns an error.
#[verifier::external_body]
pub(crate) fn read_unix_timestamp() -> (reading: Result<i64, anchor_lang::prelude::ProgramError>) {
    match Clock::get() {
        Ok(clock) => Ok(clock.unix_timestamp),
        Err(e) => Err(e),
    }
}

/// The unsigned stamp that stands for a signed clock reading: the reading
/// itself where it is not negative, else its two's complement on 64 bits.
pub open spec fn stamp_of(unix: i64) -> u64 {
    if unix >= 0 {
        unix as u64
    } else {
        (unix + 0x1_0000_0000_0000_0000) as u64
    }
}

/// Turns a signed clock reading into the unsigned stamp kept in an entry.
pub fn timestamp_from_unix(unix: i64) -> (stamp: u64)
    ensures
        stamp == stamp_of(unix),
{
    if unix >= 0 {
        unix as u64
    } else {
        let below: u64 = (-(unix + 1)) as u64;
        u64::MAX - below
    }
}

} // verus!
