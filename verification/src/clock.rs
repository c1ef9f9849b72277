//! The time of day.

use vstd::prelude::*;

verus! {

/// `std::time::SystemTime::elapsed`, on the Unix epoch: the whole seconds that the machine's clock
/// has counted since then, and nothing where the clock stands before it. No more is known of the
/// result, which rests on the clock.
#[verifier::external_body]
fn seconds_since_epoch() -> (seconds: Option<u64>) {
    match std::time::UNIX_EPOCH.elapsed() {
        Ok(elapsed) => Some(elapsed.as_secs()),
        Err(_) => None,
    }
}

/// The seconds since the Unix epoch, or zero where the clock stands before it.
pub(crate) fn unix_seconds() -> (seconds: u64)
    ensures
        exists|reading: Option<u64>| #[trigger] can_show(reading) && seconds == counted(reading),
{
    let reading = seconds_since_epoch();
    assert(can_show(reading));
    counted_seconds(reading)
}

/// Whether the machine's clock can show a reading.
pub closed spec fn can_show(reading: Option<u64>) -> bool {
    call_ensures(seconds_since_epoch, (), reading)
}

/// The seconds that a reading of the clock counts: none where it stands before the epoch.
pub open spec fn counted(reading: Option<u64>) -> u64 {
    match reading {
        Some(seconds) => seconds,
        None => 0,
    }
}

/// The seconds that a reading of the clock counts.
pub fn counted_seconds(reading: Option<u64>) -> (seconds: u64)
    ensures
        seconds == counted(reading),
{
    reading.unwrap_or(0)
}

} // verus!
