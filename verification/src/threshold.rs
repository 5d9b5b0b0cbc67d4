//! The shared inactivity threshold and its update rules.
//!
//! The threshold is a whole number of seconds, never below one.  The host
//! shell owns one `ThresholdCell` behind whatever sharing primitive it
//! likes; the poll loop reads the effective value once per tick through
//! [`inactivity_threshold`], and the configuration entry points mutate it
//! through [`set_inactivity_threshold`] and [`set_sound_inactivity_timeout`].

use vstd::prelude::*;

use crate::errors::MonitorError;

verus! {

/// The threshold used until the first configuration request: five minutes.
pub const DEFAULT_INACTIVITY_THRESHOLD_SECS: u64 = 300;

/// The timeout, in minutes, assumed when a request carries no value.
pub const DEFAULT_TIMEOUT_MINUTES: u64 = 5;

/// A requested number of whole seconds, lifted to the floor of one second.
pub open spec fn spec_min_one_secs(secs: u64) -> u64 {
    if secs == 0 {
        1u64
    } else {
        secs
    }
}

/// A requested number of minutes, converted to seconds with saturation.
pub open spec fn spec_minutes_to_secs(minutes: u64) -> u64 {
    if minutes * 60 > u64::MAX {
        u64::MAX
    } else {
        (minutes * 60) as u64
    }
}

/// The minutes a timeout request carries, with the default filled in.
pub open spec fn spec_requested_minutes(minutes: Option<u64>) -> u64 {
    match minutes {
        Some(m) => m,
        None => DEFAULT_TIMEOUT_MINUTES,
    }
}

/// The stored inactivity threshold, in whole seconds.
///
/// Invariant: at least one second.  Updates clamp upward to one second,
/// and reads clamp again, so a cell that was built by [`ThresholdCell::new`]
/// and only touched through the functions of this module never leaves the
/// invariant.
pub struct ThresholdCell {
    pub secs: u64,
}

impl ThresholdCell {
    /// The stored value is never below one second.
    pub open spec fn valid(self) -> bool {
        self.secs >= 1
    }

    /// A fresh cell holding the default threshold.
    pub fn new() -> (c: ThresholdCell)
        ensures
            c.secs == DEFAULT_INACTIVITY_THRESHOLD_SECS,
            c.valid(),
    {
        ThresholdCell { secs: DEFAULT_INACTIVITY_THRESHOLD_SECS }
    }
}

/// The effective threshold, in seconds, that the next tick compares
/// idle time against: the stored value, lifted to the floor of one second.
pub fn inactivity_threshold(cell: &ThresholdCell) -> (secs: u64)
    ensures
        secs == spec_min_one_secs(cell.secs),
        secs >= 1,
{
    if cell.secs == 0 {
        1
    } else {
        cell.secs
    }
}

/// Stores a new inactivity threshold.
///
/// The requested duration is given as whole seconds plus subsecond
/// nanoseconds.  A zero duration is rejected and leaves the cell untouched;
/// any other duration is rounded down to whole seconds and stored with a
/// floor of one second.
pub fn set_inactivity_threshold(cell: &mut ThresholdCell, secs: u64, subsec_nanos: u32) -> (r:
    Result<(), MonitorError>)
    requires
        subsec_nanos < 1_000_000_000,
    ensures
        secs == 0 && subsec_nanos == 0 ==> {
            &&& r == Err::<(), MonitorError>(MonitorError::InvalidThreshold)
            &&& *final(cell) == *old(cell)
        },
        !(secs == 0 && subsec_nanos == 0) ==> {
            &&& r == Ok::<(), MonitorError>(())
            &&& final(cell).secs == spec_min_one_secs(secs)
        },
        final(cell).valid() || *final(cell) == *old(cell),
{
    if secs == 0 && subsec_nanos == 0 {
        return Err(MonitorError::InvalidThreshold);
    }
    let stored: u64 = if secs == 0 {
        1
    } else {
        secs
    };
    cell.secs = stored;
    Ok(())
}

/// The inbound "set inactivity timeout" command.
///
/// An absent value means [`DEFAULT_TIMEOUT_MINUTES`].  Zero minutes are
/// rejected and leave the cell untouched; otherwise the minutes are
/// converted to seconds with saturating arithmetic and stored.
pub fn set_sound_inactivity_timeout(cell: &mut ThresholdCell, minutes: Option<u64>) -> (r: Result<
    (),
    MonitorError,
>)
    ensures
        spec_requested_minutes(minutes) == 0 ==> {
            &&& r == Err::<(), MonitorError>(MonitorError::InvalidThreshold)
            &&& *final(cell) == *old(cell)
        },
        spec_requested_minutes(minutes) != 0 ==> {
            &&& r == Ok::<(), MonitorError>(())
            &&& final(cell).secs == spec_minutes_to_secs(spec_requested_minutes(minutes))
        },
{
    let m: u64 = match minutes {
        Some(m) => m,
        None => DEFAULT_TIMEOUT_MINUTES,
    };
    if m == 0 {
        return Err(MonitorError::InvalidThreshold);
    }
    let wide: u128 = (m as u128) * 60;
    let secs: u64 = if wide > u64::MAX as u128 {
        u64::MAX
    } else {
        wide as u64
    };
    set_inactivity_threshold(cell, secs, 0)
}

/// Law: for every nonzero requested duration, the value a later tick reads
/// back is the requested whole seconds with a floor of one second — storing
/// and reading clamp the same way, so the read adds nothing further.
pub proof fn lemma_threshold_read_after_set(secs: u64)
    ensures
        spec_min_one_secs(spec_min_one_secs(secs)) == spec_min_one_secs(secs),
        spec_min_one_secs(secs) >= 1,
{
}

} // verus!
