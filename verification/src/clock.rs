//! Wall-clock time.
use vstd::prelude::*;

verus! {

/// Whole milliseconds elapsed since the Unix epoch, or `None` for a clock
/// set before the epoch.
///
/// Calls `std::time::SystemTime::elapsed` on `UNIX_EPOCH` and converts the
/// duration with `as_millis`. Nothing is claimed of the value: it is the
/// machine's clock.
#[verifier::external_body]
fn millis_since_epoch() -> Option<u128> {
    match std::time::UNIX_EPOCH.elapsed() {
        Ok(duration) => Some(duration.as_millis()),
        Err(_) => None,
    }
}

/// Milliseconds since the epoch as a `u64`: saturating at `u64::MAX`, and
/// zero for a clock set before the epoch.
pub open spec fn epoch_ms_of(elapsed: Option<u128>) -> u64 {
    match elapsed {
        Some(ms) => if ms > u64::MAX { u64::MAX } else { ms as u64 },
        None => 0,
    }
}

/// Converts what the clock reported into milliseconds since the epoch.
pub(crate) fn epoch_ms_from(elapsed: Option<u128>) -> (r: u64)
    ensures
        r == epoch_ms_of(elapsed),
{
    match elapsed {
        Some(ms) => {
            if ms > u64::MAX as u128 {
                u64::MAX
            } else {
                ms as u64
            }
        },
        None => 0,
    }
}

/// Milliseconds since the Unix epoch by the machine's clock, saturating at
/// `u64::MAX`, and zero for a clock set before the epoch. Any value can come
/// back: it is the clock's.
pub(crate) fn now_epoch_ms() -> u64 {
    epoch_ms_from(millis_since_epoch())
}

} // verus!
