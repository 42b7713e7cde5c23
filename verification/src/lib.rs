//! Poll-driven state machines for two classes of discrete digital I/O
//! peripherals: indicator outputs that can run timed visual effects (a single
//! pulse or a periodic blink) and momentary switches whose press/release
//! transitions and state durations are tracked across a polling loop.
//!
//! All timing is done on plain `u64` millisecond timestamps taken from a
//! monotonic clock owned by the caller. The hardware lines and the clock live
//! outside this crate: each `poll` takes the timestamp (and, for a switch, the
//! raw sampled level) and decides the next state and the level the output
//! line must be driven to. Poll intervals may be irregular; the state
//! machines never assume a fixed cadence.

use vstd::prelude::*;

pub mod led;
pub mod switch;

verus! {

/// Milliseconds elapsed from `earlier` to `now`, or `None` when `now` does
/// not follow `earlier` (a non-monotonic pair of timestamps, which must be
/// detectable rather than undefined).
pub open spec fn spec_duration_since(now: u64, earlier: u64) -> Option<u64> {
    if now >= earlier {
        Some((now - earlier) as u64)
    } else {
        None
    }
}

/// Computes the milliseconds elapsed from `earlier` to `now`; `None` when
/// `now` does not follow `earlier`.
pub fn duration_since(now: u64, earlier: u64) -> (r: Option<u64>)
    ensures
        r == spec_duration_since(now, earlier),
{
    if now >= earlier {
        Some(now - earlier)
    } else {
        None
    }
}

} // verus!
