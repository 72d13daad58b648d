//! The system clock.
use vstd::prelude::*;

verus! {

/// The error of a clock that stands before the UNIX epoch.
#[verifier::external_type_specification]
#[verifier::external_body]
pub struct ExSystemTimeError(std::time::SystemTimeError);

/// Calls `std::time::SystemTime::elapsed` on the UNIX epoch: the seconds since then.
/// Nothing is known of the time that the clock shows.
#[verifier::external_body]
pub(crate) fn unix_time() -> (r: Result<u64, std::time::SystemTimeError>) {
    std::time::SystemTime::UNIX_EPOCH.elapsed().map(|elapsed| elapsed.as_secs())
}

/// `clock` is what reading the system clock can come back with: the whole seconds since the
/// UNIX epoch, or the error of a clock that stands before it.
pub closed spec fn clock_may_read(clock: Result<u64, std::time::SystemTimeError>) -> bool {
    call_ensures(unix_time, (), clock)
}

/// A reading of the clock is what the system gave, neither scaled nor shifted.
pub(crate) proof fn law_clock_reading_is_the_systems(
    clock: Result<u64, std::time::SystemTimeError>,
)
    ensures
        clock_may_read(clock) <==> call_ensures(unix_time, (), clock),
{
}

} // verus!
