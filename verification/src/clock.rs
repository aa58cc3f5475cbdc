//! The engine's one source of time: the system clock, read once per use
//! and clamped into the supported epoch range.

use vstd::prelude::*;

use crate::tasks::MAX_EPOCH_SECONDS;

verus! {

/// Relies on chrono's `Utc::now` and `DateTime::timestamp`: the current
/// system time as Unix-epoch seconds.  When the call returns, the clock was
/// at or after the Unix epoch (chrono aborts otherwise), so the reading is
/// non-negative; nothing more can be promised of a clock.
#[verifier::external_body]
fn now_timestamp() -> (t: i64)
    ensures
        0 <= t,
{
    chrono::Utc::now().timestamp()
}

/// Clamp a raw clock reading into the epoch range the formulas support; a
/// reading already in range passes through unchanged.
pub fn clamp_timestamp(raw: i64) -> (t: i64)
    ensures
        1 <= t <= MAX_EPOCH_SECONDS,
        1 <= raw <= MAX_EPOCH_SECONDS ==> t == raw,
{
    if raw < 1 {
        1
    } else if raw > MAX_EPOCH_SECONDS {
        MAX_EPOCH_SECONDS
    } else {
        raw
    }
}

/// The current time as Unix-epoch seconds, in the supported range.
pub fn current_timestamp() -> (t: i64)
    ensures
        1 <= t <= MAX_EPOCH_SECONDS,
{
    clamp_timestamp(now_timestamp())
}

} // verus!
