//! The time that goes into a receipt.
use std::time::{Duration, SystemTime, SystemTimeError};

use vstd::prelude::*;

verus! {

#[verifier::external_type_specification]
#[verifier::external_body]
pub struct ExSystemTime(std::time::SystemTime);

#[verifier::external_type_specification]
#[verifier::external_body]
pub struct ExSystemTimeError(std::time::SystemTimeError);

/// The present moment: `SystemTime::now`. Nothing is claimed of what the clock shows.
#[verifier::external_body]
fn present() -> (r: SystemTime) {
    SystemTime::now()
}

/// How long after the unix epoch a moment is: `SystemTime::duration_since`, which fails where the
/// moment is earlier. Nothing is claimed of the result, since a moment has no plain value; see
/// [`clock_shows`] for what is made of it.
#[verifier::external_body]
fn since_epoch(moment: &SystemTime) -> (r: Result<Duration, SystemTimeError>) {
    moment.duration_since(std::time::UNIX_EPOCH)
}

/// The whole of a duration in nanoseconds.
pub uninterp spec fn duration_nanos(duration: Duration) -> u128;

/// The whole of a duration in nanoseconds: `Duration::as_nanos`, which depends on the duration
/// alone.
#[verifier::external_body]
fn whole_nanos(duration: &Duration) -> (r: u128)
    ensures
        r == duration_nanos(*duration),
{
    duration.as_nanos()
}

/// The timestamp of a count of nanoseconds: its low 64 bits.
pub open spec fn timestamp_of(nanos: u128) -> u64 {
    (nanos % 0x1_0000_0000_0000_0000) as u64
}

/// The timestamp of a count of nanoseconds: its low 64 bits.
pub fn timestamp_from_nanos(nanos: u128) -> (r: u64)
    ensures
        r == timestamp_of(nanos),
        r as int == nanos as int % 0x1_0000_0000_0000_0000,
{
    assert(nanos as u64 == nanos % 0x1_0000_0000_0000_0000) by (bit_vector);
    #[verifier::truncate]
    (nanos as u64)
}

/// Two counts of nanoseconds have two timestamps, unless they lie 2^64 nanoseconds apart or more.
pub proof fn timestamps_differ(nanos: u128, other: u128)
    requires
        nanos < other < nanos + 0x1_0000_0000_0000_0000,
    ensures
        timestamp_of(nanos) != timestamp_of(other),
{
}

/// The reading of the clock: the nanoseconds since the unix epoch where the present lies behind it,
/// and otherwise the error that says so.
pub fn reading(since_epoch: Result<Duration, SystemTimeError>) -> (r: Result<u128, SystemTimeError>)
    ensures
        match since_epoch {
            Ok(duration) => r == Ok::<u128, SystemTimeError>(duration_nanos(duration)),
            Err(e) => r == Err::<u128, SystemTimeError>(e),
        },
{
    match since_epoch {
        Ok(duration) => Ok(whole_nanos(&duration)),
        Err(e) => Err(e),
    }
}

/// Whether a reading is one that the clock gave: [`present`] returned a moment, [`since_epoch`]
/// returned how far it lies from the epoch, and the reading is that duration in nanoseconds, or the
/// error that there is none.
pub closed spec fn clock_shows(reading: Result<u128, SystemTimeError>) -> bool {
    exists|moment: SystemTime, since: Result<Duration, SystemTimeError>|
        {
            &&& call_ensures(present, (), moment)
            &&& #[trigger] call_ensures(since_epoch, (&moment,), since)
            &&& match since {
                Ok(duration) => reading == Ok::<u128, SystemTimeError>(duration_nanos(duration)),
                Err(e) => reading == Err::<u128, SystemTimeError>(e),
            }
        }
}

/// A reading of the clock is a duration in whole nanoseconds, or the error of a moment before the
/// epoch. The moment is one that [`present`] returned, and the duration is what [`since_epoch`]
/// returned on it.
proof fn lemma_clock_shows(reading: Result<u128, SystemTimeError>)
    requires
        clock_shows(reading),
    ensures
        exists|moment: SystemTime, since: Result<Duration, SystemTimeError>|
            call_ensures(present, (), moment) && #[trigger] call_ensures(
                since_epoch,
                (&moment,),
                since,
            ) && (reading is Ok <==> since is Ok) && (since is Ok ==> reading->Ok_0
                == duration_nanos(since->Ok_0)) && (since is Err ==> reading->Err_0 == since->Err_0),
{
}

/// A reading of the clock that is a number is some duration in nanoseconds: no other unit, and no
/// number of the library's own.
pub proof fn clock_counts_nanoseconds(reading: Result<u128, SystemTimeError>)
    requires
        clock_shows(reading),
        reading is Ok,
    ensures
        exists|duration: Duration| reading->Ok_0 == #[trigger] duration_nanos(duration),
{
    lemma_clock_shows(reading);
}

/// The reading of the clock at present.
pub(crate) fn nanos_since_epoch() -> (r: Result<u128, SystemTimeError>)
    ensures
        clock_shows(r),
{
    let moment: SystemTime = present();
    let since: Result<Duration, SystemTimeError> = since_epoch(&moment);
    reading(since)
}

} // verus!
