//! Idle-time computation.
//!
//! The platform reports two millisecond counters: the current tick count
//! and the tick count at the last keyboard or mouse input.  The idle time
//! is their difference, clamped to zero when the counters have wrapped or
//! been reset and the last-input stamp is numerically ahead of the current
//! one.  The host shell queries the counters and hands them in here.

use vstd::prelude::*;

verus! {

/// The idle duration, in milliseconds, that two tick counters describe:
/// their difference, or zero when the last-input stamp is ahead.
pub open spec fn spec_idle_millis(current: u64, last_input: u64) -> u64 {
    if current >= last_input {
        (current - last_input) as u64
    } else {
        0u64
    }
}

/// Milliseconds of input inactivity, from the current tick counter and the
/// tick counter recorded at the last input event.  The subtraction
/// saturates: a wrapped or reset counter yields zero idle time, never a
/// negative or absurdly large duration.
pub fn idle_time_millis(current_ticks_ms: u64, last_input_ms: u32) -> (idle_ms: u64)
    ensures
        idle_ms == spec_idle_millis(current_ticks_ms, last_input_ms as u64),
{
    let last: u64 = last_input_ms as u64;
    if current_ticks_ms >= last {
        current_ticks_ms - last
    } else {
        0
    }
}

/// Law: the idle-time computation never goes below zero, whatever the two
/// counters hold — in the wrap/reset case it clamps to exactly zero.
pub proof fn lemma_idle_time_clamps_to_zero(current: u64, last_input: u64)
    ensures
        spec_idle_millis(current, last_input) >= 0,
        current < last_input ==> spec_idle_millis(current, last_input) == 0,
{
}

} // verus!
