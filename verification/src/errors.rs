//! Error kinds of the monitor.

use vstd::prelude::*;

verus! {

/// Everything that can go wrong in the monitor, from a rejected threshold
/// request to a failing platform call.  Platform failures are fatal to the
/// background loop; `InvalidThreshold` and `UnsupportedPlatform` are local,
/// recoverable results of the configuration entry points.
#[derive(Clone, Copy, PartialEq, Eq, Structural, Debug)]
pub enum MonitorError {
    /// A zero (or otherwise invalid) inactivity duration was requested.
    InvalidThreshold,
    /// The feature was invoked on a platform without the required support.
    UnsupportedPlatform,
    /// The idle-time query failed.
    PlatformQuery,
    /// Reading the endpoint's volume or mute flag failed.
    AudioQuery,
    /// Writing the endpoint's volume or mute flag failed.
    AudioCommand,
    /// Setting up the platform session required for audio API access failed.
    PlatformSession,
    /// Spawning the background loop failed.
    Spawn,
}

impl MonitorError {
    /// A short description of the error kind.
    pub fn message(&self) -> (r: &'static str)
        ensures
            self is InvalidThreshold ==> r@ == "the inactivity duration must be greater than zero"@,
            self is UnsupportedPlatform ==> r@ == "not supported on this platform"@,
            self is PlatformQuery ==> r@ == "failed to query the system idle time"@,
            self is AudioQuery ==> r@ == "failed to read the audio endpoint state"@,
            self is AudioCommand ==> r@ == "failed to change the audio endpoint state"@,
            self is PlatformSession ==> r@ == "failed to set up the platform audio session"@,
            self is Spawn ==> r@ == "could not start the monitoring loop"@,
    {
        match self {
            MonitorError::InvalidThreshold => "the inactivity duration must be greater than zero",
            MonitorError::UnsupportedPlatform => "not supported on this platform",
            MonitorError::PlatformQuery => "failed to query the system idle time",
            MonitorError::AudioQuery => "failed to read the audio endpoint state",
            MonitorError::AudioCommand => "failed to change the audio endpoint state",
            MonitorError::PlatformSession => "failed to set up the platform audio session",
            MonitorError::Spawn => "could not start the monitoring loop",
        }
    }
}

} // verus!
